use jdwp_codec::DecodeError;
use jdwp_codec::bytes::{read_string, read_u16, read_u32, read_u64, write_string};
use jdwp_codec::commands::{
    Command, CommandPacketHeader, ReplyPacketHeader, encode_command_header,
};
use jdwp_codec::ids::{IdSizesReply, IdentifierWidthContext, VariableLengthId};
use jdwp_codec::replies::{
    AllClassesReply, AllThreadsReply, ClassesBySignatureOut, ClassesBySignatureReply,
    ReplyPayload, TopLevelThreadGroupsReply, TypeTag, VersionReply, decode_reply_payload,
};

fn context_of_width(w: i32) -> IdentifierWidthContext {
    let sizes = IdSizesReply {
        field_id_size: w,
        method_id_size: w,
        object_id_size: w,
        reference_type_id_size: w,
        frame_id_size: w,
    };
    sizes.to_context().unwrap()
}

#[test]
fn test_deserialize_vm_version_command() {
    let data = vec![1u8, 1u8];
    let value = Command::decode(&data, 0).unwrap().0;
    assert_eq!(value, Command::VirtualMachineVersion);
}

#[test]
fn test_command_round_trip_all_variants() {
    let all = [
        Command::VirtualMachineVersion,
        Command::VirtualMachineClassesBySignature,
        Command::VirtualMachineAllClasses,
        Command::VirtualMachineAllThreads,
        Command::VirtualMachineTopLevelThreadGroups,
        Command::VirtualMachineDispose,
        Command::VirtualMachineIDSizes,
        Command::VirtualMachineSuspend,
        Command::VirtualMachineResume,
    ];
    for (k, c) in all.iter().enumerate() {
        assert_eq!(c.code(), 0x0101 + k as u16);
        let mut out: Vec<u8> = Vec::new();
        c.encode(&mut out);
        assert_eq!(out.len(), 2);
        let (back, end) = Command::decode(&out, 0).unwrap();
        assert_eq!(back, *c);
        assert_eq!(end, 2);
    }
}

#[test]
fn test_unknown_opcode_rejected() {
    let data = vec![2u8, 1u8];
    assert_eq!(
        Command::decode(&data, 0),
        Err(DecodeError::UnknownOpcode(0x0201))
    );
    assert_eq!(Command::from_code(0), Err(DecodeError::UnknownOpcode(0)));
    assert_eq!(
        Command::from_code(0x010A),
        Err(DecodeError::UnknownOpcode(0x010A))
    );
}

#[test]
fn test_vlid_round_trip_all_widths() {
    let cases: [(i32, u64); 8] = [
        (1, 0),
        (1, 0xFF),
        (2, 0xFFFF),
        (2, 0x0102),
        (4, 0xFFFFFFFF),
        (4, 5),
        (8, u64::MAX),
        (8, 0x0102030405060708),
    ];
    for (width, value) in cases.iter() {
        let id = VariableLengthId { value: *value };
        let mut out: Vec<u8> = Vec::new();
        id.encode(&mut out, *width);
        assert_eq!(out.len(), *width as usize);
        let (back, end) = VariableLengthId::decode(&out, 0, *width).unwrap();
        assert_eq!(back.value, *value);
        assert_eq!(end, *width as usize);
    }
}

#[test]
fn test_vlid_invalid_width() {
    let data = vec![0u8, 0, 0, 1];
    assert_eq!(
        VariableLengthId::decode(&data, 0, 3),
        Err(DecodeError::InvalidIdWidth(3))
    );
}

#[test]
fn test_vlid_truncated() {
    let data = vec![0u8, 0, 1];
    assert_eq!(
        VariableLengthId::decode(&data, 0, 4),
        Err(DecodeError::TruncatedInput)
    );
}

#[test]
fn test_all_threads_two_ids() {
    let ctx = context_of_width(8);
    let mut payload = vec![0u8, 0, 0, 2];
    payload.extend_from_slice(&[0, 0, 0, 0, 0, 0, 0, 1]);
    payload.extend_from_slice(&[0, 0, 0, 0, 0, 0, 0, 2]);
    let (reply, end) = AllThreadsReply::decode(&payload, 0, &ctx).unwrap();
    assert_eq!(end, payload.len());
    assert_eq!(reply.threads.len(), 2);
    assert_eq!(reply.threads[0].thread_id.value, 1);
    assert_eq!(reply.threads[1].thread_id.value, 2);
}

#[test]
fn test_top_level_thread_groups() {
    let ctx = context_of_width(4);
    let payload = vec![0u8, 0, 0, 1, 0, 0, 0, 7];
    let (reply, end) = TopLevelThreadGroupsReply::decode(&payload, 0, &ctx).unwrap();
    assert_eq!(end, 8);
    assert_eq!(reply.threads_groups.len(), 1);
    assert_eq!(reply.threads_groups[0].thread_group_id.value, 7);
}

#[test]
fn test_id_sizes_all_eight() {
    let mut payload: Vec<u8> = Vec::new();
    for _ in 0..5 {
        payload.extend_from_slice(&[0, 0, 0, 8]);
    }
    let (reply, end) = IdSizesReply::decode(&payload, 0).unwrap();
    assert_eq!(end, 20);
    assert_eq!(reply.field_id_size, 8);
    assert_eq!(reply.method_id_size, 8);
    assert_eq!(reply.object_id_size, 8);
    assert_eq!(reply.reference_type_id_size, 8);
    assert_eq!(reply.frame_id_size, 8);
}

#[test]
fn test_to_context_rejects_bad_width() {
    let sizes = IdSizesReply {
        field_id_size: 8,
        method_id_size: 3,
        object_id_size: 8,
        reference_type_id_size: 8,
        frame_id_size: 8,
    };
    assert_eq!(sizes.to_context(), Err(DecodeError::InvalidIdWidth(3)));
}

#[test]
fn test_classes_by_signature_single_record() {
    let ctx = context_of_width(4);
    let payload = vec![
        0u8, 0, 0, 1, // count = 1
        1, // tag = class
        0, 0, 0, 5, // id = 5 in 4 bytes
        0, 0, 0, 4, // status = 0x04
    ];
    let (reply, end) = ClassesBySignatureReply::decode(&payload, 0, &ctx).unwrap();
    assert_eq!(end, payload.len());
    assert_eq!(reply.classes.len(), 1);
    assert_eq!(reply.classes[0].ref_type_tag, TypeTag::Class);
    assert_eq!(reply.classes[0].type_id.value, 5);
    assert!(reply.classes[0].status.bits & 0x4 != 0);
}

#[test]
fn test_type_tag_codes() {
    assert_eq!(TypeTag::Class.code(), 1);
    assert_eq!(TypeTag::Interface.code(), 2);
    assert_eq!(TypeTag::Array.code(), 3);
}

#[test]
fn test_classes_by_signature_truncated_record() {
    let ctx = context_of_width(4);
    let payload = vec![0u8, 0, 0, 1, 1, 0, 0];
    assert!(matches!(
        ClassesBySignatureReply::decode(&payload, 0, &ctx),
        Err(DecodeError::TruncatedInput)
    ));
}

#[test]
fn test_classes_by_signature_bad_tag() {
    let ctx = context_of_width(4);
    let payload = vec![0u8, 0, 0, 1, 9, 0, 0, 0, 5, 0, 0, 0, 4];
    assert!(matches!(
        ClassesBySignatureReply::decode(&payload, 0, &ctx),
        Err(DecodeError::InvalidEnumValue(9))
    ));
}

#[test]
fn test_classes_by_signature_bad_status() {
    let ctx = context_of_width(4);
    let payload = vec![0u8, 0, 0, 1, 1, 0, 0, 0, 5, 0, 0, 0, 0x10];
    assert!(matches!(
        ClassesBySignatureReply::decode(&payload, 0, &ctx),
        Err(DecodeError::InvalidEnumValue(0x10))
    ));
}

#[test]
fn test_classes_by_signature_negative_count() {
    let ctx = context_of_width(4);
    let payload = vec![0xFFu8, 0xFF, 0xFF, 0xFF];
    assert!(matches!(
        ClassesBySignatureReply::decode(&payload, 0, &ctx),
        Err(DecodeError::LengthMismatch)
    ));
}

#[test]
fn test_all_classes_with_signatures() {
    let ctx = context_of_width(2);
    let mut payload = vec![0u8, 0, 0, 2];
    // record one: tag interface, id 0x0101, signature "LA;", status prepared
    payload.extend_from_slice(&[2, 1, 1, 0, 0, 0, 3]);
    payload.extend_from_slice(b"LA;");
    payload.extend_from_slice(&[0, 0, 0, 2]);
    // record two: tag array, id 9, signature "[I", status verified
    payload.extend_from_slice(&[3, 0, 9, 0, 0, 0, 2]);
    payload.extend_from_slice(b"[I");
    payload.extend_from_slice(&[0, 0, 0, 1]);
    let (reply, end) = AllClassesReply::decode(&payload, 0, &ctx).unwrap();
    assert_eq!(end, payload.len());
    assert_eq!(reply.classes.len(), 2);
    assert_eq!(reply.classes[0].ref_type_tag, TypeTag::Interface);
    assert_eq!(reply.classes[0].type_id.value, 0x0101);
    assert_eq!(reply.classes[0].signature, "LA;");
    assert_eq!(reply.classes[0].status.bits, 2);
    assert_eq!(reply.classes[1].ref_type_tag, TypeTag::Array);
    assert_eq!(reply.classes[1].type_id.value, 9);
    assert_eq!(reply.classes[1].signature, "[I");
    assert_eq!(reply.classes[1].status.bits, 1);
}

#[test]
fn test_version_reply_decode() {
    let mut payload: Vec<u8> = Vec::new();
    write_string(&mut payload, "Java Debug Wire Protocol");
    payload.extend_from_slice(&[0, 0, 0, 1]);
    payload.extend_from_slice(&[0, 0, 0, 8]);
    write_string(&mut payload, "11.0.2");
    write_string(&mut payload, "OpenJDK 64-Bit Server VM");
    let (reply, end) = VersionReply::decode(&payload, 0).unwrap();
    assert_eq!(end, payload.len());
    assert_eq!(reply.description, "Java Debug Wire Protocol");
    assert_eq!(reply.jdwp_major, 1);
    assert_eq!(reply.jdwp_minor, 8);
    assert_eq!(reply.vm_version, "11.0.2");
    assert_eq!(reply.vm_name, "OpenJDK 64-Bit Server VM");
}

#[test]
fn test_string_negative_length() {
    let payload = vec![0x80u8, 0, 0, 0, 0];
    assert_eq!(read_string(&payload, 0), Err(DecodeError::LengthMismatch));
}

#[test]
fn test_string_truncated() {
    let payload = vec![0u8, 0, 0, 5, b'a', b'b'];
    assert_eq!(read_string(&payload, 0), Err(DecodeError::TruncatedInput));
}

#[test]
fn test_string_bad_utf8() {
    let payload = vec![0u8, 0, 0, 2, 0xFF, 0xFE];
    assert_eq!(
        read_string(&payload, 0),
        Err(DecodeError::StringEncodingError)
    );
}

#[test]
fn test_string_round_trip() {
    let mut out: Vec<u8> = Vec::new();
    write_string(&mut out, "héllo, wörld");
    let (s, end) = read_string(&out, 0).unwrap();
    assert_eq!(s, "héllo, wörld");
    assert_eq!(end, out.len());
}

#[test]
fn test_classes_by_signature_out_encode() {
    let query = ClassesBySignatureOut { signature: "Ljava/lang/String;" };
    let mut out: Vec<u8> = Vec::new();
    query.encode(&mut out);
    assert_eq!(out.len(), 4 + 18);
    assert_eq!(&out[..4], &[0, 0, 0, 18]);
    assert_eq!(&out[4..], "Ljava/lang/String;".as_bytes());
}

#[test]
fn test_command_header_round_trip() {
    let bytes = encode_command_header(42, 0, Command::VirtualMachineAllThreads, 5);
    assert_eq!(bytes.len(), 11);
    let (header, end) = CommandPacketHeader::decode(&bytes, 0).unwrap();
    assert_eq!(end, 11);
    assert_eq!(header.length, 16);
    assert_eq!(header.id, 42);
    assert_eq!(header.flags, 0);
    assert_eq!(header.command, Command::VirtualMachineAllThreads);
}

#[test]
fn test_command_header_exact_bytes() {
    let header = CommandPacketHeader {
        length: 11,
        id: 0x01020304,
        flags: 0,
        command: Command::VirtualMachineIDSizes,
    };
    let bytes = header.encode();
    assert_eq!(bytes, vec![0, 0, 0, 11, 1, 2, 3, 4, 0, 1, 7]);
    let (back, _) = CommandPacketHeader::decode(&bytes, 0).unwrap();
    assert_eq!(back, header);
}

#[test]
fn test_reply_header_round_trip() {
    let header = ReplyPacketHeader { length: 11, id: 7, flags: 0x80, error_code: 21 };
    let bytes = header.encode();
    assert_eq!(bytes.len(), 11);
    let (back, end) = ReplyPacketHeader::decode(&bytes, 0).unwrap();
    assert_eq!(end, 11);
    assert_eq!(back, header);
    assert!(!back.is_success());
}

#[test]
fn test_reply_header_truncated() {
    let bytes = vec![0u8; 10];
    assert_eq!(
        ReplyPacketHeader::decode(&bytes, 0),
        Err(DecodeError::TruncatedInput)
    );
}

#[test]
fn test_reply_header_helpers() {
    assert_eq!(CommandPacketHeader::get_length(), 11);
    assert_eq!(ReplyPacketHeader::get_length(), 11);
    let d = ReplyPacketHeader::default();
    assert_eq!(d.length, 0);
    assert_eq!(d.id, 0xFFFFFFFF);
    assert_eq!(d.flags, 0);
    assert_eq!(d.error_code, 0);
    assert!(d.is_success());
}

#[test]
fn test_reply_error_short_circuits_payload() {
    let ctx = context_of_width(4);
    // garbage payload that would fail to parse as an id-sizes reply
    let payload = vec![0xDEu8, 0xAD];
    let header = ReplyPacketHeader { length: 13, id: 1, flags: 0x80, error_code: 21 };
    let r = decode_reply_payload(&header, Command::VirtualMachineIDSizes, &payload, &ctx);
    assert!(matches!(r, Err(DecodeError::ReplyError(21))));
}

#[test]
fn test_reply_payload_dispatch_and_framing() {
    let ctx = context_of_width(8);
    let mut payload = vec![0u8, 0, 0, 1];
    payload.extend_from_slice(&[0, 0, 0, 0, 0, 0, 0, 3]);
    let header = ReplyPacketHeader {
        length: 11 + payload.len() as u32,
        id: 1,
        flags: 0x80,
        error_code: 0,
    };
    let r = decode_reply_payload(&header, Command::VirtualMachineAllThreads, &payload, &ctx);
    match r {
        Ok(ReplyPayload::AllThreads(reply)) => {
            assert_eq!(reply.threads.len(), 1);
            assert_eq!(reply.threads[0].thread_id.value, 3);
        }
        other => panic!("unexpected result: {:?}", other),
    }
    // a header length that disagrees with the payload is a framing error
    let bad = ReplyPacketHeader { length: 12, id: 1, flags: 0x80, error_code: 0 };
    assert!(matches!(
        decode_reply_payload(&bad, Command::VirtualMachineAllThreads, &payload, &ctx),
        Err(DecodeError::LengthMismatch)
    ));
}

#[test]
fn test_reply_payload_must_consume_everything() {
    let ctx = context_of_width(8);
    // an id-sizes payload with a trailing byte
    let mut payload: Vec<u8> = Vec::new();
    for _ in 0..5 {
        payload.extend_from_slice(&[0, 0, 0, 8]);
    }
    payload.push(0);
    let header = ReplyPacketHeader {
        length: 11 + payload.len() as u32,
        id: 1,
        flags: 0x80,
        error_code: 0,
    };
    assert!(matches!(
        decode_reply_payload(&header, Command::VirtualMachineIDSizes, &payload, &ctx),
        Err(DecodeError::LengthMismatch)
    ));
}

#[test]
fn test_reply_payload_empty_commands() {
    let ctx = context_of_width(8);
    let empty: Vec<u8> = Vec::new();
    let header = ReplyPacketHeader { length: 11, id: 1, flags: 0x80, error_code: 0 };
    let r = decode_reply_payload(&header, Command::VirtualMachineDispose, &empty, &ctx);
    assert!(matches!(r, Ok(ReplyPayload::Empty)));
    let payload = vec![1u8];
    let header2 = ReplyPacketHeader { length: 12, id: 1, flags: 0x80, error_code: 0 };
    assert!(matches!(
        decode_reply_payload(&header2, Command::VirtualMachineSuspend, &payload, &ctx),
        Err(DecodeError::LengthMismatch)
    ));
}

#[test]
fn test_primitive_reads() {
    let data = vec![0x01u8, 0x02, 0x03, 0x04, 0x05, 0x06, 0x07, 0x08];
    assert_eq!(read_u16(&data, 0).unwrap(), (0x0102, 2));
    assert_eq!(read_u32(&data, 0).unwrap(), (0x01020304, 4));
    assert_eq!(read_u64(&data, 0).unwrap(), (0x0102030405060708, 8));
    assert_eq!(read_u32(&data, 4).unwrap(), (0x05060708, 8));
    assert_eq!(read_u64(&data, 1), Err(DecodeError::TruncatedInput));
}
