use ce_mcp_plugin::plugin::{
    control_creation, form_action, image_option, route, ControlKind, FormAction, Handler,
    ImageOption,
};
use ce_mcp_plugin::session::{
    ai_send_reply, on_connect, on_read, ConnectAction, ConnectOutcome, ReadOutcome, ServerControl,
    SessionAction, READ_TIMEOUT_MS, RETRY_DELAY_MS,
};
use ce_mcp_plugin::{Command, PluginType, CESDK_VERSION};

/// The commands that one read forwards, with `pending` kept between reads.
fn forwarded(pending: &mut Vec<u8>, bytes: &[u8]) -> Vec<Command> {
    match on_read(pending, ReadOutcome::Data(bytes.to_vec())) {
        SessionAction::Forward(c) => c,
        _ => panic!("expected the read to forward commands"),
    }
}

#[test]
fn reads_become_actions() {
    let mut pending = Vec::new();
    assert_eq!(forwarded(&mut pending, b"OPEN_PROCESS:12\n"), vec![Command::OpenProcess { process_id: 12 }]);
    assert!(pending.is_empty());
    assert_eq!(forwarded(&mut pending, &[0xff, 0xfe, b'\n']), vec![]);
    assert!(pending.is_empty());
    let mut pending = b"PAUSE".to_vec();
    assert!(matches!(on_read(&mut pending, ReadOutcome::TimedOut), SessionAction::Wait));
    assert_eq!(pending, b"PAUSE".to_vec());
    assert!(matches!(on_read(&mut pending, ReadOutcome::Closed), SessionAction::Disconnect));
    assert!(pending.is_empty());
    let mut pending = b"PAUSE".to_vec();
    assert!(matches!(on_read(&mut pending, ReadOutcome::Failed), SessionAction::Disconnect));
    assert!(pending.is_empty());
}

#[test]
fn utf8_text_reaches_the_parser() {
    let mut pending = Vec::new();
    assert_eq!(
        forwarded(&mut pending, "SHOW_MESSAGE:你好\n".as_bytes()),
        vec![Command::ShowMessage("你好".to_string())]
    );
}

#[test]
fn lines_split_across_reads() {
    let mut pending = Vec::new();
    assert_eq!(forwarded(&mut pending, b"READ_MEMORY:0x10,fl"), vec![]);
    assert_eq!(pending, b"READ_MEMORY:0x10,fl".to_vec());
    assert_eq!(
        forwarded(&mut pending, b"oat\nOPEN_PRO"),
        vec![Command::ReadMemory { address: 16, type_: "float".to_string() }]
    );
    assert_eq!(forwarded(&mut pending, b"CESS:4\n"), vec![Command::OpenProcess { process_id: 4 }]);
    assert!(pending.is_empty());
}

#[test]
fn characters_split_across_reads() {
    let bytes = "SHOW_MESSAGE:你好\n".as_bytes();
    let mut pending = Vec::new();
    // Cut inside the three bytes of the first Chinese character.
    assert_eq!(forwarded(&mut pending, &bytes[..14]), vec![]);
    assert_eq!(forwarded(&mut pending, &bytes[14..]), vec![Command::ShowMessage("你好".to_string())]);
}

#[test]
fn every_chunking_gives_the_same_commands() {
    let text = b"SHOW_MESSAGE:a\nOPEN_PROCESS:7\n\nSPEEDHACK:2\n";
    let mut whole = Vec::new();
    let expected = forwarded(&mut whole, text);
    assert_eq!(expected.len(), 4);
    for cut in 0..=text.len() {
        let mut pending = Vec::new();
        let mut got = forwarded(&mut pending, &text[..cut]);
        got.extend(forwarded(&mut pending, &text[cut..]));
        assert_eq!(got, expected);
        assert!(pending.is_empty());
    }
    let mut pending = Vec::new();
    let mut got = Vec::new();
    for b in text.iter() {
        got.extend(forwarded(&mut pending, &[*b]));
    }
    assert_eq!(got, expected);
}

#[test]
fn server_starts_one_worker() {
    let mut c = ServerControl::new();
    assert!(!c.is_running());
    assert!(c.start());
    assert!(c.is_running());
    assert!(!c.start());
    assert!(c.stop());
    assert!(!c.is_running());
    assert!(!c.stop());
    assert!(c.start());
}

#[test]
fn lua_replies() {
    assert_eq!(ai_send_reply(0, true, true), "Error: Missing command parameter");
    assert_eq!(ai_send_reply(1, false, true), "Error: Invalid command");
    assert_eq!(ai_send_reply(2, true, true), "Command sent successfully");
    assert_eq!(ai_send_reply(1, true, false), "Error: Failed to send command");
}

#[test]
fn plugin_codes() {
    assert_eq!(CESDK_VERSION, 6);
    assert_eq!(PluginType::PtAddressList.code(), 0);
    assert_eq!(PluginType::PtMainMenu.code(), 5);
    assert_eq!(PluginType::PtAutoAssembler.code(), 8);
}

#[test]
fn command_groups() {
    assert_eq!(
        control_creation(&Command::CreateMemo { owner: 3 }),
        Some((3, ControlKind::Memo))
    );
    assert_eq!(control_creation(&Command::CreateForm), None);
    assert_eq!(form_action(&Command::FormHide { form: 9 }), Some((9, FormAction::Hide)));
    assert_eq!(
        image_option(&Command::ImageStretch { image: 1, stretch: true }),
        Some((1, true, ImageOption::Stretch))
    );
    assert_eq!(image_option(&Command::FormHide { form: 9 }), None);
}

#[test]
fn one_command_per_line() {
    let mut pending = Vec::new();
    assert_eq!(forwarded(&mut pending, b"SHOW_MESSAGE:hi\n"), vec![Command::ShowMessage("hi".to_string())]);
    assert_eq!(
        forwarded(&mut pending, b"READ_MEMORY:0x10,float\nOPEN_PROCESS:4\n"),
        vec![
            Command::ReadMemory { address: 16, type_: "float".to_string() },
            Command::OpenProcess { process_id: 4 },
        ]
    );
    assert_eq!(forwarded(&mut pending, b"L1\nL2"), vec![Command::Unknown("L1".to_string())]);
    assert_eq!(pending, b"L2".to_vec());
    assert_eq!(forwarded(&mut pending, b"\n"), vec![Command::Unknown("L2".to_string())]);
    assert_eq!(forwarded(&mut pending, b"\n"), vec![Command::Unknown(String::new())]);
}

#[test]
fn connecting_and_retrying() {
    assert_eq!(on_connect(ConnectOutcome::Connected), ConnectAction::Serve { read_timeout_ms: 100 });
    assert_eq!(on_connect(ConnectOutcome::Failed), ConnectAction::RetryAfter { delay_ms: 1000 });
    assert_eq!(READ_TIMEOUT_MS, 100);
    assert_eq!(RETRY_DELAY_MS, 1000);
}

#[test]
fn dispatch_codes() {
    let kinds = [
        ControlKind::Panel,
        ControlKind::Button,
        ControlKind::Label,
        ControlKind::Edit,
        ControlKind::Image,
        ControlKind::Memo,
        ControlKind::GroupBox,
        ControlKind::Timer,
    ];
    for (i, k) in kinds.iter().enumerate() {
        assert_eq!(k.code(), i as i32);
    }
    assert_eq!(FormAction::CenterScreen.code(), 0);
    assert_eq!(FormAction::Hide.code(), 1);
    assert_eq!(FormAction::Show.code(), 2);
    assert_eq!(ImageOption::Transparent.code(), 0);
    assert_eq!(ImageOption::Stretch.code(), 1);
}

#[test]
fn commands_reach_their_handlers() {
    assert_eq!(
        route(&Command::CreateTimer { owner: 5 }),
        Handler::CreateControl { owner: 5, kind: ControlKind::Timer }
    );
    assert_eq!(
        route(&Command::FormCenterScreen { form: 2 }),
        Handler::FormAction { form: 2, action: FormAction::CenterScreen }
    );
    assert_eq!(
        route(&Command::ImageTransparent { image: 8, transparent: false }),
        Handler::ImageOption { image: 8, value: false, option: ImageOption::Transparent }
    );
    assert_eq!(route(&Command::CreateForm), Handler::Own);
    assert_eq!(route(&Command::ShowMessage("x".to_string())), Handler::Own);
}
