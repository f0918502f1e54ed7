use ce_mcp_plugin::memory::{entry_type_code, entry_type_id};
use ce_mcp_plugin::replies::{
    address_from_pointer_reply,
    address_to_name_reply,
    assemble_reply,
    auto_assemble_reply,
    buffer_text,
    change_register_reply,
    continue_reply,
    create_control_reply,
    create_form_reply,
    create_table_entry_reply,
    debug_process_reply,
    disassemble_reply,
    get_caption_reply,
    get_entry_address_reply,
    get_entry_description_reply,
    get_entry_script_reply,
    get_entry_type_reply,
    get_entry_value_reply,
    get_position_reply,
    get_process_id_reply,
    get_size_reply,
    get_table_entry_reply,
    inject_dll_reply,
    name_to_address_reply,
    next_opcode_reply,
    open_process_reply,
    previous_opcode_reply,
    read_memory_failed_reply,
    read_memory_reply,
    register_assignment,
    remove_breakpoint_reply,
    set_breakpoint_reply,
    write_memory_reply,
};

#[test]
fn assemble_replies() {
    assert_eq!(
        assemble_reply("nop", true, &[0x90]),
        "Assemble result: nop\nBytes: 90"
    );
    assert_eq!(
        assemble_reply("mov eax,1", true, &[0xB8, 0x01, 0, 0, 0]),
        "Assemble result: mov eax,1\nBytes: B8 01 00 00 00"
    );
    assert_eq!(assemble_reply("x", true, &[]), "Assemble result: x\nBytes: ");
    assert_eq!(assemble_reply("x", false, &[1]), "Assemble failed");
}

#[test]
fn buffer_texts() {
    assert_eq!(buffer_text(b"mov eax,ebx\0garbage"), "mov eax,ebx");
    assert_eq!(buffer_text(b"no nul"), "no nul");
    assert_eq!(buffer_text(b"\0"), "");
    assert_eq!(buffer_text(b"a\xffb\0"), "a\u{fffd}b");
    assert_eq!(buffer_text("名字\0".as_bytes()), "名字");
}

#[test]
fn entry_types() {
    assert_eq!(entry_type_id("byte"), 0);
    assert_eq!(entry_type_id("Word"), 1);
    assert_eq!(entry_type_id("dword"), 2);
    assert_eq!(entry_type_id("float"), 3);
    assert_eq!(entry_type_id("DOUBLE"), 4);
    assert_eq!(entry_type_id("string"), 6);
    assert_eq!(entry_type_id("byte_array"), 7);
    assert_eq!(entry_type_id("qword"), 2);
    assert_eq!(entry_type_id("ﬂoat"), 3);
    assert_eq!(entry_type_code("float"), 2);
    assert_eq!(entry_type_code("FLOAT"), 3);
}

#[test]
fn address_replies() {
    assert_eq!(create_form_reply(0x1A2B), "CreateForm result: Form pointer = 0x1A2B");
    assert_eq!(create_control_reply(0), "CreateControl result: 0x0");
    assert_eq!(get_table_entry_reply(255), "GetTableEntry result: 0xFF");
    assert_eq!(address_from_pointer_reply(16), "GetAddressFromPointer result: 0x10");
    assert_eq!(previous_opcode_reply(0x401000), "PreviousOpcode result: 0x401000");
    assert_eq!(next_opcode_reply(0x401005), "NextOpcode result: 0x401005");
    assert_eq!(create_table_entry_reply(true, 0xABC), "CreateTableEntry result: 0xABC");
    assert_eq!(create_table_entry_reply(false, 0xABC), "CreateTableEntry failed");
    assert_eq!(name_to_address_reply(true, 0x7ff0), "NameToAddress result: 0x7FF0");
    assert_eq!(name_to_address_reply(false, 1), "NameToAddress failed");
}

#[test]
fn text_replies() {
    assert_eq!(auto_assemble_reply(1), "AutoAssemble result: 1");
    assert_eq!(auto_assemble_reply(-3), "AutoAssemble result: -3");
    assert_eq!(
        disassemble_reply(0x401000, true, "push ebp"),
        "Disassemble result (0x401000): push ebp"
    );
    assert_eq!(disassemble_reply(0x401000, false, "x"), "Disassemble failed");
    assert_eq!(get_caption_reply("OK"), "GetCaption result: OK");
    assert_eq!(get_position_reply(-1, 20), "GetPosition result: X=-1, Y=20");
    assert_eq!(get_size_reply(640, 480), "GetSize result: W=640, H=480");
    assert_eq!(get_entry_description_reply("hp"), "GetEntryDescription result: hp");
    assert_eq!(get_entry_address_reply("a+4"), "GetEntryAddress result: a+4");
    assert_eq!(get_entry_type_reply(2), "GetEntryType result: 2");
    assert_eq!(get_entry_value_reply("100"), "GetEntryValue result: 100");
    assert_eq!(get_entry_script_reply("[ENABLE]"), "GetEntryScript result: [ENABLE]");
    assert_eq!(address_to_name_reply(true, "game.exe+10"), "AddressToName result: game.exe+10");
    assert_eq!(address_to_name_reply(false, "x"), "AddressToName failed");
}

#[test]
fn process_replies() {
    assert_eq!(open_process_reply(1234, true), "OpenProcess success: 1234");
    assert_eq!(open_process_reply(1234, false), "OpenProcess failed: 1234");
    assert_eq!(get_process_id_reply(4294967295), "GetProcessId result: 4294967295");
    assert_eq!(debug_process_reply(7, true), "DebugProcess success: 7");
    assert_eq!(debug_process_reply(7, false), "DebugProcess failed: 7");
}

#[test]
fn advanced_replies() {
    assert_eq!(register_assignment("EAX", "0x10"), "EAX=0x10");
    assert_eq!(change_register_reply(0x401000, true), "ChangeRegister success at 0x401000");
    assert_eq!(change_register_reply(0x401000, false), "ChangeRegister failed");
    assert_eq!(inject_dll_reply("C:\\x.dll", true), "InjectDLL success: C:\\x.dll");
    assert_eq!(inject_dll_reply("C:\\x.dll", false), "InjectDLL failed");
    assert_eq!(set_breakpoint_reply(0xA, true), "SetBreakpoint success at 0xA");
    assert_eq!(set_breakpoint_reply(0xA, false), "SetBreakpoint failed");
    assert_eq!(remove_breakpoint_reply(0xA, true), "RemoveBreakpoint success at 0xA");
    assert_eq!(remove_breakpoint_reply(0xA, false), "RemoveBreakpoint failed");
    assert_eq!(continue_reply(true), "ContinueFromBreakpoint success");
    assert_eq!(continue_reply(false), "ContinueFromBreakpoint failed");
}

#[test]
fn memory_replies() {
    assert_eq!(read_memory_reply(0x10, "42"), "ReadMemory: 0x10 = 42");
    assert_eq!(read_memory_failed_reply(0x10), "ReadMemory failed at 0x10");
    assert_eq!(write_memory_reply(0x10, "42", true), "WriteMemory success: 0x10 = 42");
    assert_eq!(write_memory_reply(0x10, "42", false), "WriteMemory failed at 0x10");
}
