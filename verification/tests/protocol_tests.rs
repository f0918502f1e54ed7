use ce_mcp_plugin::protocol::{Command, Verb};
use ce_mcp_plugin::text::to_chars;

fn parse(s: &str) -> Command {
    Command::from_string(s)
}

fn unknown(s: &str) -> Command {
    Command::Unknown(s.to_string())
}

#[test]
fn read_memory_hex_address() {
    assert_eq!(
        parse("READ_MEMORY:0x12345678,float"),
        Command::ReadMemory { address: 0x12345678, type_: "float".to_string() }
    );
}

#[test]
fn read_memory_decimal_address_and_extra_params() {
    assert_eq!(
        parse("READ_MEMORY:100,dword,extra"),
        Command::ReadMemory { address: 100, type_: "dword".to_string() }
    );
}

#[test]
fn read_memory_bad_address_is_unknown() {
    assert_eq!(parse("READ_MEMORY:zz,dword"), unknown("READ_MEMORY:zz,dword"));
    assert_eq!(parse("READ_MEMORY:0x10"), unknown("READ_MEMORY:0x10"));
}

#[test]
fn write_memory_three_params() {
    assert_eq!(
        parse("WRITE_MEMORY:0X1f,42,byte"),
        Command::WriteMemory { address: 0x1f, value: "42".to_string(), type_: "byte".to_string() }
    );
    assert_eq!(parse("WRITE_MEMORY:0x1f,42"), unknown("WRITE_MEMORY:0x1f,42"));
}

#[test]
fn assemble_keeps_commas_in_instruction() {
    assert_eq!(
        parse("ASSEMBLE:0x00401000,mov eax,ebx"),
        Command::Assemble { address: 0x401000, instruction: "mov eax,ebx".to_string() }
    );
}

#[test]
fn address_is_trimmed() {
    assert_eq!(parse("DISASSEMBLE:  0x10 \n"), Command::Disassemble { address: 16 });
    assert_eq!(parse("DISASSEMBLE:\t42\r\n"), Command::Disassemble { address: 42 });
}

#[test]
fn show_message_keeps_everything_after_first_colon() {
    assert_eq!(parse("SHOW_MESSAGE:a:b,c"), Command::ShowMessage("a:b,c".to_string()));
    assert_eq!(parse("SHOW_MESSAGE"), Command::ShowMessage(String::new()));
}

#[test]
fn parameterless_commands() {
    assert_eq!(parse("CREATE_FORM"), Command::CreateForm);
    assert_eq!(parse("CREATE_FORM:ignored"), Command::CreateForm);
    assert_eq!(parse("PROCESS_LIST"), Command::ProcessList);
    assert_eq!(parse("PAUSE_PROCESS"), Command::PauseProcess);
    assert_eq!(parse("UNPAUSE_PROCESS:"), Command::UnpauseProcess);
}

#[test]
fn control_creation_commands() {
    assert_eq!(parse("CREATE_PANEL:0x100"), Command::CreatePanel { owner: 0x100 });
    assert_eq!(parse("CREATE_BUTTON:256"), Command::CreateButton { owner: 256 });
    assert_eq!(parse("CREATE_LABEL:0x1"), Command::CreateLabel { owner: 1 });
    assert_eq!(parse("CREATE_EDIT:0x2"), Command::CreateEdit { owner: 2 });
    assert_eq!(parse("CREATE_IMAGE:0x3"), Command::CreateImage { owner: 3 });
    assert_eq!(parse("CREATE_MEMO:0x4"), Command::CreateMemo { owner: 4 });
    assert_eq!(parse("CREATE_GROUP_BOX:0x5"), Command::CreateGroupBox { owner: 5 });
    assert_eq!(parse("CREATE_TIMER:0x6"), Command::CreateTimer { owner: 6 });
    assert_eq!(parse("CREATE_PANEL:"), unknown("CREATE_PANEL:"));
}

#[test]
fn caption_position_size() {
    assert_eq!(
        parse("SET_CAPTION:0x10,Hello, world"),
        Command::SetCaption { control: 16, caption: "Hello, world".to_string() }
    );
    assert_eq!(parse("GET_CAPTION:0x10"), Command::GetCaption { control: 16 });
    assert_eq!(
        parse("SET_POSITION:0x10,-5,+7"),
        Command::SetPosition { control: 16, x: -5, y: 7 }
    );
    assert_eq!(parse("SET_POSITION:0x10, 5,7"), unknown("SET_POSITION:0x10, 5,7"));
    assert_eq!(
        parse("SET_SIZE:0x10,640,480"),
        Command::SetSize { control: 16, width: 640, height: 480 }
    );
    assert_eq!(parse("SET_SIZE:0x10,640"), unknown("SET_SIZE:0x10,640"));
    assert_eq!(parse("GET_POSITION:1"), Command::GetPosition { control: 1 });
    assert_eq!(parse("GET_SIZE:1"), Command::GetSize { control: 1 });
}

#[test]
fn forms_and_objects() {
    assert_eq!(parse("DESTROY_OBJECT:0xA"), Command::DestroyObject { object: 10 });
    assert_eq!(parse("FORM_CENTER_SCREEN:0xa"), Command::FormCenterScreen { form: 10 });
    assert_eq!(parse("FORM_HIDE:10"), Command::FormHide { form: 10 });
    assert_eq!(parse("FORM_SHOW:10"), Command::FormShow { form: 10 });
}

#[test]
fn images_and_timers() {
    assert_eq!(
        parse("IMAGE_LOAD_IMAGE_FROM_FILE:0x10,C:\\a,b.png"),
        Command::ImageLoadFromFile { image: 16, filename: "C:\\a,b.png".to_string() }
    );
    assert_eq!(
        parse("IMAGE_TRANSPARENT:0x10,1"),
        Command::ImageTransparent { image: 16, transparent: true }
    );
    assert_eq!(
        parse("IMAGE_TRANSPARENT:0x10,TrUe"),
        Command::ImageTransparent { image: 16, transparent: true }
    );
    assert_eq!(
        parse("IMAGE_TRANSPARENT:0x10,yes"),
        Command::ImageTransparent { image: 16, transparent: false }
    );
    assert_eq!(
        parse("IMAGE_STRETCH:0x10,0"),
        Command::ImageStretch { image: 16, stretch: false }
    );
    assert_eq!(
        parse("TIMER_SET_INTERVAL:0x10,100"),
        Command::TimerSetInterval { timer: 16, interval: 100 }
    );
    assert_eq!(parse("TIMER_SET_INTERVAL:0x10,x"), unknown("TIMER_SET_INTERVAL:0x10,x"));
}

#[test]
fn table_entries() {
    assert_eq!(
        parse("CREATE_TABLE_ENTRY:Health,game.exe+10,dword,extra"),
        Command::CreateTableEntry {
            description: "Health".to_string(),
            address: "game.exe+10".to_string(),
            type_: "dword,extra".to_string(),
        }
    );
    assert_eq!(parse("CREATE_TABLE_ENTRY:a,b"), unknown("CREATE_TABLE_ENTRY:a,b"));
    assert_eq!(parse("GET_TABLE_ENTRY:3"), Command::GetTableEntry { index: 3 });
    assert_eq!(parse("GET_TABLE_ENTRY:0x3"), unknown("GET_TABLE_ENTRY:0x3"));
    assert_eq!(
        parse("SET_ENTRY_DESCRIPTION:2,Ammo, left"),
        Command::SetEntryDescription { index: 2, description: "Ammo, left".to_string() }
    );
    assert_eq!(
        parse("SET_ENTRY_ADDRESS:2,[base]+4"),
        Command::SetEntryAddress { index: 2, address: "[base]+4".to_string() }
    );
    assert_eq!(
        parse("SET_ENTRY_TYPE:-1,float"),
        Command::SetEntryType { index: -1, type_: "float".to_string() }
    );
    assert_eq!(
        parse("SET_ENTRY_VALUE:2,100"),
        Command::SetEntryValue { index: 2, value: "100".to_string() }
    );
    assert_eq!(
        parse("SET_ENTRY_SCRIPT:2,[ENABLE]"),
        Command::SetEntryScript { index: 2, script: "[ENABLE]".to_string() }
    );
    assert_eq!(parse("SET_ENTRY_VALUE:2"), unknown("SET_ENTRY_VALUE:2"));
    assert_eq!(parse("GET_ENTRY_DESCRIPTION:1"), Command::GetEntryDescription { index: 1 });
    assert_eq!(parse("GET_ENTRY_ADDRESS:1"), Command::GetEntryAddress { index: 1 });
    assert_eq!(parse("GET_ENTRY_TYPE:1"), Command::GetEntryType { index: 1 });
    assert_eq!(parse("GET_ENTRY_VALUE:1"), Command::GetEntryValue { index: 1 });
    assert_eq!(parse("GET_ENTRY_SCRIPT:1"), Command::GetEntryScript { index: 1 });
    assert_eq!(parse("FREEZE_ENTRY:1"), Command::FreezeEntry { index: 1 });
    assert_eq!(parse("UNFREEZE_ENTRY:1"), Command::UnfreezeEntry { index: 1 });
    assert_eq!(parse("DELETE_ENTRY:1"), Command::DeleteEntry { index: 1 });
}

#[test]
fn index_range_is_i32() {
    assert_eq!(parse("GET_TABLE_ENTRY:2147483647"), Command::GetTableEntry { index: i32::MAX });
    assert_eq!(parse("GET_TABLE_ENTRY:-2147483648"), Command::GetTableEntry { index: i32::MIN });
    assert_eq!(parse("GET_TABLE_ENTRY:2147483648"), unknown("GET_TABLE_ENTRY:2147483648"));
    assert_eq!(parse("GET_TABLE_ENTRY:-2147483649"), unknown("GET_TABLE_ENTRY:-2147483649"));
    assert_eq!(parse("GET_TABLE_ENTRY:-"), unknown("GET_TABLE_ENTRY:-"));
    assert_eq!(parse("GET_TABLE_ENTRY: 1"), unknown("GET_TABLE_ENTRY: 1"));
}

#[test]
fn processes() {
    assert_eq!(parse("OPEN_PROCESS:1234"), Command::OpenProcess { process_id: 1234 });
    assert_eq!(parse("OPEN_PROCESS:-1"), unknown("OPEN_PROCESS:-1"));
    assert_eq!(parse("OPEN_PROCESS:4294967295"), Command::OpenProcess { process_id: u32::MAX });
    assert_eq!(parse("OPEN_PROCESS:4294967296"), unknown("OPEN_PROCESS:4294967296"));
    assert_eq!(
        parse("GET_PROCESS_ID:game.exe"),
        Command::GetProcessId { process_name: "game.exe".to_string() }
    );
    assert_eq!(parse("DEBUG_PROCESS:+99"), Command::DebugProcess { process_id: 99 });
}

#[test]
fn advanced_commands() {
    assert_eq!(
        parse("CHANGE_REGISTER:0x401000,EAX,0x10,extra"),
        Command::ChangeRegister {
            address: 0x401000,
            reg: "EAX".to_string(),
            value: "0x10,extra".to_string(),
        }
    );
    assert_eq!(
        parse("INJECT_DLL:C:\\x.dll"),
        Command::InjectDll { path: "C:\\x.dll".to_string(), function: String::new() }
    );
    assert_eq!(
        parse("INJECT_DLL:C:\\x.dll,Init"),
        Command::InjectDll { path: "C:\\x.dll".to_string(), function: "Init".to_string() }
    );
    assert_eq!(parse("SPEEDHACK:2.5"), Command::Speedhack { speed: "2.5".to_string() });
    assert_eq!(parse("ADDRESS_TO_NAME:0x401000"), Command::AddressToName { address: 0x401000 });
    assert_eq!(
        parse("NAME_TO_ADDRESS:kernel32.Sleep"),
        Command::NameToAddress { name: "kernel32.Sleep".to_string() }
    );
    assert_eq!(parse("PREVIOUS_OPCODE:0x10"), Command::PreviousOpcode { address: 16 });
    assert_eq!(parse("NEXT_OPCODE:0x10"), Command::NextOpcode { address: 16 });
    assert_eq!(
        parse("SET_BREAKPOINT:0x10,4,1"),
        Command::SetBreakpoint { address: 16, size: 4, trigger: 1 }
    );
    assert_eq!(parse("SET_BREAKPOINT:0x10,4,1,2"), unknown("SET_BREAKPOINT:0x10,4,1,2"));
    assert_eq!(parse("REMOVE_BREAKPOINT:0x10"), Command::RemoveBreakpoint { address: 16 });
    assert_eq!(
        parse("CONTINUE_FROM_BREAKPOINT:2"),
        Command::ContinueFromBreakpoint { option: 2 }
    );
}

#[test]
fn pointer_chain_skips_bad_offsets_and_truncates() {
    assert_eq!(
        parse("GET_ADDRESS_FROM_POINTER:0x1000,0x10,zz,8,0x100000004"),
        Command::GetAddressFromPointer { base: 0x1000, offsets: vec![0x10, 8, 4] }
    );
    assert_eq!(
        parse("GET_ADDRESS_FROM_POINTER:0x1000"),
        Command::GetAddressFromPointer { base: 0x1000, offsets: vec![] }
    );
    assert_eq!(
        parse("GET_ADDRESS_FROM_POINTER:0xFFFFFFFF"),
        Command::GetAddressFromPointer { base: 0xFFFF_FFFF, offsets: vec![] }
    );
    assert_eq!(
        parse("GET_ADDRESS_FROM_POINTER:base,1"),
        unknown("GET_ADDRESS_FROM_POINTER:base,1")
    );
}

#[test]
fn pointer_offset_that_sets_the_sign_bit() {
    assert_eq!(
        parse("GET_ADDRESS_FROM_POINTER:0x10,0xFFFFFFFF"),
        Command::GetAddressFromPointer { base: 16, offsets: vec![-1] }
    );
}

#[test]
fn unknown_names() {
    assert_eq!(parse("HELLO:1"), unknown("HELLO:1"));
    assert_eq!(parse("read_memory:0x1,byte"), unknown("read_memory:0x1,byte"));
    assert_eq!(parse(""), unknown(""));
    assert_eq!(parse("READ_MEMORY :0x1,byte"), unknown("READ_MEMORY :0x1,byte"));
}

#[test]
fn verb_names_are_the_wire_names() {
    assert_eq!(Verb::ReadMemory.name(), "READ_MEMORY");
    assert_eq!(Verb::GetAddressFromPointer.name(), "GET_ADDRESS_FROM_POINTER");
    let name = to_chars("CREATE_GROUP_BOX");
    assert_eq!(ce_mcp_plugin::protocol::lookup_verb(&name), Some(Verb::CreateGroupBox));
}

#[test]
fn printed_form_address_feeds_back() {
    let reply = ce_mcp_plugin::replies::create_form_reply(0x2A4F10);
    let printed = reply.rsplit(' ').next().unwrap();
    assert_eq!(printed, "0x2A4F10");
    assert_eq!(
        parse(&format!("CREATE_PANEL:{}", printed)),
        Command::CreatePanel { owner: 0x2A4F10 }
    );
}

#[test]
fn parameters_keep_later_colons() {
    assert_eq!(
        parse("IMAGE_LOAD_IMAGE_FROM_FILE:0x10,C:\\pics\\a.png"),
        Command::ImageLoadFromFile { image: 16, filename: "C:\\pics\\a.png".to_string() }
    );
}

#[test]
fn speedhack_needs_a_float() {
    assert_eq!(parse("SPEEDHACK:2.5"), Command::Speedhack { speed: "2.5".to_string() });
    assert_eq!(parse("SPEEDHACK:1e1"), Command::Speedhack { speed: "1e1".to_string() });
    assert_eq!(parse("SPEEDHACK:inf"), Command::Speedhack { speed: "inf".to_string() });
    assert_eq!(parse("SPEEDHACK:fast"), Command::Unknown("SPEEDHACK:fast".to_string()));
    assert_eq!(parse("SPEEDHACK:"), Command::Unknown("SPEEDHACK:".to_string()));
    assert_eq!(parse("SPEEDHACK: 2"), Command::Unknown("SPEEDHACK: 2".to_string()));
}

#[test]
fn commands_from_chars() {
    assert_eq!(
        Command::from_chars(&to_chars("OPEN_PROCESS:7")),
        Command::OpenProcess { process_id: 7 }
    );
    assert_eq!(Command::from_chars(&[]), Command::Unknown(String::new()));
}
