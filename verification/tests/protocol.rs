use named_pipe_ipc::client::NamedPipeClientStruct;
use named_pipe_ipc::codec::{decode_frame_len, read_frame, write_frame};
use named_pipe_ipc::crypto::{decrypt_message, default_key, encrypt_message, Cipher};
use named_pipe_ipc::error::NamedPipeError;
use named_pipe_ipc::server::NamedPipeServerStruct;
use named_pipe_ipc::utils::{format_pipe_name, verify_same_path};

#[test]
fn frame_round_trip_empty() {
    let payload: Vec<u8> = vec![];
    let frame = write_frame(&payload);
    assert_eq!(frame, vec![0u8, 0, 0, 0]);
    assert_eq!(read_frame(&frame).unwrap(), payload);
}

#[test]
fn frame_round_trip_bytes() {
    let payload: Vec<u8> = vec![1, 2, 3];
    let frame = write_frame(&payload);
    assert_eq!(frame, vec![3u8, 0, 0, 0, 1, 2, 3]);
    assert_eq!(read_frame(&frame).unwrap(), payload);
}

#[test]
fn frame_rejects_short_input() {
    assert_eq!(read_frame(&vec![1u8, 0]).unwrap_err(), NamedPipeError::Data);
}

#[test]
fn frame_rejects_wrong_prefix() {
    // Prefix declares 5 bytes, only 3 follow.
    let frame = vec![5u8, 0, 0, 0, 1, 2, 3];
    assert_eq!(read_frame(&frame).unwrap_err(), NamedPipeError::Data);
}

#[test]
fn frame_len_is_little_endian() {
    assert_eq!(decode_frame_len(&vec![0x01, 0x02, 0x00, 0x00]), 513);
    assert_eq!(decode_frame_len(&vec![0xff, 0xff, 0xff, 0xff]), u32::MAX);
}

#[test]
fn encrypt_decrypt_round_trip() {
    let cipher = Cipher::new(&[7u8; 32]);
    let data = b"some plaintext bytes".to_vec();
    let sealed = encrypt_message(&cipher, &data).unwrap();
    assert_eq!(sealed.len(), data.len() + 28);
    assert_eq!(decrypt_message(&cipher, &sealed).unwrap(), data);
}

#[test]
fn encrypt_decrypt_round_trip_default_key() {
    let cipher = Cipher::from_key_option(None);
    assert_eq!(default_key().len(), 32);
    let data = b"ping".to_vec();
    let sealed = encrypt_message(&cipher, &data).unwrap();
    assert_eq!(decrypt_message(&cipher, &sealed).unwrap(), data);
}

#[test]
fn encrypt_round_trip_empty_message() {
    let cipher = Cipher::new(&[0u8; 32]);
    let sealed = encrypt_message(&cipher, &[]).unwrap();
    assert_eq!(sealed.len(), 28);
    assert_eq!(decrypt_message(&cipher, &sealed).unwrap(), Vec::<u8>::new());
}

#[test]
fn decrypt_rejects_every_flipped_bit() {
    let cipher = Cipher::new(&[9u8; 32]);
    let data = b"tamper detection".to_vec();
    let sealed = encrypt_message(&cipher, &data).unwrap();
    for i in 0..sealed.len() {
        for bit in 0..8 {
            let mut corrupted = sealed.clone();
            corrupted[i] ^= 1 << bit;
            assert_eq!(
                decrypt_message(&cipher, &corrupted).unwrap_err(),
                NamedPipeError::Data,
                "byte {} bit {} was accepted",
                i,
                bit
            );
        }
    }
}

#[test]
fn decrypt_rejects_wrong_key() {
    let data = b"secret".to_vec();
    let sealed = encrypt_message(&Cipher::new(&[1u8; 32]), &data).unwrap();
    assert_eq!(
        decrypt_message(&Cipher::new(&[2u8; 32]), &sealed).unwrap_err(),
        NamedPipeError::Data
    );
}

#[test]
fn decrypt_rejects_truncated_payload() {
    let cipher = Cipher::new(&[3u8; 32]);
    assert_eq!(
        decrypt_message(&cipher, &[0u8; 11]).unwrap_err(),
        NamedPipeError::Data
    );
}

#[test]
fn pipe_name_is_normalized() {
    assert_eq!(format_pipe_name("demo"), "\\\\.\\pipe\\demo");
    assert_eq!(format_pipe_name("\\\\.\\pipe\\demo"), "\\\\.\\pipe\\demo");
    assert_eq!(format_pipe_name(""), "\\\\.\\pipe\\");
}

#[test]
fn path_comparison_ignores_ascii_case() {
    assert!(verify_same_path("C:\\App\\SERVER.EXE", "c:\\app\\server.exe").is_ok());
    assert!(verify_same_path("same", "same").is_ok());
}

#[test]
fn path_comparison_rejects_other_path() {
    let r = verify_same_path("C:\\copies\\server.exe", "C:\\release\\server.exe");
    assert_eq!(r.unwrap_err(), NamedPipeError::Identity);
    let r = verify_same_path("C:\\a\\server.exe", "C:\\a\\server.exe.bak");
    assert_eq!(r.unwrap_err(), NamedPipeError::Identity);
}

#[test]
fn client_connect_and_disconnect() {
    let mut client = NamedPipeClientStruct::new("demo");
    assert!(!client.is_connected());
    assert!(!client.is_encrypted());
    assert!(client.connect(None, "C:\\app.exe").is_ok());
    assert!(client.is_connected());
    client.disconnect();
    assert!(!client.is_connected());
    client.disconnect();
    assert!(!client.is_connected());
}

#[test]
fn client_send_receive_fail_after_disconnect() {
    let mut client = NamedPipeClientStruct::new("demo");
    client.connect(None, "C:\\app.exe").unwrap();
    client.disconnect();
    assert_eq!(
        client.encode_message(b"x").unwrap_err(),
        NamedPipeError::NotConnected
    );
    assert_eq!(
        client.decode_message(b"x").unwrap_err(),
        NamedPipeError::NotConnected
    );
    assert_eq!(
        client.encode_string_message("x").unwrap_err(),
        NamedPipeError::NotConnected
    );
    assert_eq!(
        client.decode_string_message(b"x").unwrap_err(),
        NamedPipeError::NotConnected
    );
}

#[test]
fn client_enforcement_accepts_same_path() {
    let mut client = NamedPipeClientStruct::new("demo");
    client.enforce_same_path_server(true);
    let r = client.connect(Some("C:\\Apps\\Tool.exe"), "c:\\apps\\tool.exe");
    assert!(r.is_ok());
    assert!(client.is_connected());
    assert!(client
        .verify_server_path(Some("C:\\APPS\\TOOL.EXE"), "c:\\apps\\tool.exe")
        .is_ok());
}

#[test]
fn client_enforcement_rejects_other_path() {
    let mut client = NamedPipeClientStruct::new("demo");
    client.enforce_same_path_server(true);
    let r = client.connect(Some("C:\\elsewhere\\tool.exe"), "C:\\apps\\tool.exe");
    assert_eq!(r.unwrap_err(), NamedPipeError::Identity);
    assert!(!client.is_connected());
}

#[test]
fn client_enforcement_fails_closed_on_unresolved_path() {
    let mut client = NamedPipeClientStruct::new("demo");
    client.enforce_same_path_server(true);
    let r = client.connect(None, "C:\\apps\\tool.exe");
    assert_eq!(r.unwrap_err(), NamedPipeError::Identity);
    assert!(!client.is_connected());
}

#[test]
fn verify_server_path_needs_connection() {
    let mut client = NamedPipeClientStruct::new("demo");
    client.enforce_same_path_server(true);
    let r = client.verify_server_path(Some("C:\\a.exe"), "C:\\a.exe");
    assert_eq!(r.unwrap_err(), NamedPipeError::NotConnected);
}

#[test]
fn server_assigns_distinct_increasing_ids() {
    let mut server = NamedPipeServerStruct::new("demo");
    let first = server.accept_connection(None, "C:\\srv.exe").unwrap();
    let second = server.accept_connection(None, "C:\\srv.exe").unwrap();
    let third = server.accept_connection(None, "C:\\srv.exe").unwrap();
    assert_eq!(first.id(), 0);
    assert_eq!(second.id(), 1);
    assert_eq!(third.id(), 2);
    assert!(first.id() < second.id() && second.id() < third.id());
}

#[test]
fn server_rejection_consumes_no_id() {
    let mut server = NamedPipeServerStruct::new("demo");
    server.enforce_same_path_client(true);
    match server.accept_connection(Some("C:\\other.exe"), "C:\\srv.exe") {
        Err(e) => assert_eq!(e, NamedPipeError::Identity),
        Ok(_) => panic!("a foreign path was accepted"),
    }
    match server.accept_connection(None, "C:\\srv.exe") {
        Err(e) => assert_eq!(e, NamedPipeError::Identity),
        Ok(_) => panic!("an unresolved path was accepted"),
    }
    let accepted = server
        .accept_connection(Some("C:\\SRV.EXE"), "C:\\srv.exe")
        .unwrap();
    assert_eq!(accepted.id(), 0);
    assert!(accepted.verified());
}

#[test]
fn unenforced_accept_is_unverified() {
    let mut server = NamedPipeServerStruct::new("demo");
    let connection = server.accept_connection(None, "C:\\srv.exe").unwrap();
    assert!(!connection.verified());
}

#[test]
fn plaintext_ping_pong_echo() {
    let mut client = NamedPipeClientStruct::new("echo");
    client.connect(None, "C:\\app.exe").unwrap();
    let mut server = NamedPipeServerStruct::new("echo");
    let connection = server.accept_connection(None, "C:\\app.exe").unwrap();

    // Client sends "ping"; the wire carries the plaintext frame.
    let wire = client.encode_string_message("ping").unwrap();
    assert_eq!(wire, vec![4u8, 0, 0, 0, b'p', b'i', b'n', b'g']);
    let body = read_frame(&wire).unwrap();
    assert_eq!(connection.decode_string_message(&body).unwrap(), "ping");

    // Server echoes "pong"; the client reads exactly "pong".
    let wire = connection.encode_string_message("pong").unwrap();
    let body = read_frame(&wire).unwrap();
    assert_eq!(client.decode_string_message(&body).unwrap(), "pong");
}

#[test]
fn encrypted_ping_pong_hides_plaintext() {
    let key = [42u8; 32];
    let mut client = NamedPipeClientStruct::new_encrypted("echo", Some(&key));
    client.connect(None, "C:\\app.exe").unwrap();
    let mut server = NamedPipeServerStruct::new_encrypted("echo", Some(&key));
    let connection = server.accept_connection(None, "C:\\app.exe").unwrap();

    assert!(client.is_encrypted());
    assert!(connection.is_encrypted());
    let wire = client.encode_string_message("ping").unwrap();
    // 4-byte prefix, 12-byte nonce, 4 message bytes, 16-byte tag.
    assert_eq!(wire.len(), 4 + 12 + 4 + 16);
    assert_ne!(wire, vec![4u8, 0, 0, 0, b'p', b'i', b'n', b'g']);
    assert!(!wire.windows(4).any(|w| w == b"ping"));

    let body = read_frame(&wire).unwrap();
    assert_eq!(connection.decode_string_message(&body).unwrap(), "ping");

    let wire = connection.encode_string_message("pong").unwrap();
    assert!(!wire.windows(4).any(|w| w == b"pong"));
    let body = read_frame(&wire).unwrap();
    assert_eq!(client.decode_string_message(&body).unwrap(), "pong");
}

#[test]
fn encrypted_peers_use_default_key_alike() {
    let mut client = NamedPipeClientStruct::new_encrypted("echo", None);
    client.connect(None, "C:\\app.exe").unwrap();
    let mut server = NamedPipeServerStruct::new_encrypted("echo", None);
    let connection = server.accept_connection(None, "C:\\app.exe").unwrap();

    let wire = client.encode_message(b"hello").unwrap();
    let body = read_frame(&wire).unwrap();
    assert_eq!(connection.decode_message(&body).unwrap(), b"hello");
}

#[test]
fn corrupt_nonce_byte_yields_data_error() {
    let key = [13u8; 32];
    let mut client = NamedPipeClientStruct::new_encrypted("echo", Some(&key));
    client.connect(None, "C:\\app.exe").unwrap();
    let mut server = NamedPipeServerStruct::new_encrypted("echo", Some(&key));
    let connection = server.accept_connection(None, "C:\\app.exe").unwrap();

    let wire = client.encode_message(b"payload").unwrap();
    let mut body = read_frame(&wire).unwrap();
    body[0] ^= 0x01;
    assert_eq!(
        connection.decode_message(&body).unwrap_err(),
        NamedPipeError::Data
    );
}

#[test]
fn mismatched_keys_fail_to_decode() {
    let mut client = NamedPipeClientStruct::new_encrypted("echo", Some(&[1u8; 32]));
    client.connect(None, "C:\\app.exe").unwrap();
    let mut server = NamedPipeServerStruct::new_encrypted("echo", Some(&[2u8; 32]));
    let connection = server.accept_connection(None, "C:\\app.exe").unwrap();

    let wire = client.encode_message(b"hello").unwrap();
    let body = read_frame(&wire).unwrap();
    assert_eq!(
        connection.decode_message(&body).unwrap_err(),
        NamedPipeError::Data
    );
}

#[test]
fn invalid_utf8_is_a_data_error() {
    let mut client = NamedPipeClientStruct::new("echo");
    client.connect(None, "C:\\app.exe").unwrap();
    let body = vec![0xffu8, 0xfe, 0xfd];
    assert_eq!(
        client.decode_string_message(&body).unwrap_err(),
        NamedPipeError::Data
    );
}

#[test]
fn connection_disconnect_blocks_send_receive() {
    let mut server = NamedPipeServerStruct::new("demo");
    let mut connection = server.accept_connection(None, "C:\\srv.exe").unwrap();
    assert!(connection.is_connected());
    connection.disconnect();
    assert!(!connection.is_connected());
    assert_eq!(
        connection.encode_message(b"x").unwrap_err(),
        NamedPipeError::NotConnected
    );
    assert_eq!(
        connection.decode_message(b"x").unwrap_err(),
        NamedPipeError::NotConnected
    );
}

#[test]
fn client_keeps_pipe_name() {
    let client = NamedPipeClientStruct::new("demo");
    assert_eq!(client.pipe_name(), "\\\\.\\pipe\\demo");
    let server = NamedPipeServerStruct::new("\\\\.\\pipe\\other");
    assert_eq!(server.pipe_name(), "\\\\.\\pipe\\other");
}
