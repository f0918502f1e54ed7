//! The texts that the plugin sends back for each command, built from what
//! Cheat Engine returned.
use vstd::prelude::*;
use vstd::string::StringExecFns;
use vstd::utf8::{decode_utf8, valid_utf8};
use crate::number::{byte_hex, dec_digits, hex_digits, int_text, push_byte_hex, push_dec, push_hex, push_int};
use crate::text::{push_char, string_from_chars, to_chars, trim, trim_chars};

verus! {

broadcast use vstd::string::group_string_axioms;

/// The text of a byte buffer as `String::from_utf8_lossy` reads it.
pub uninterp spec fn utf8_lossy(bytes: Seq<u8>) -> Seq<char>;

/// `String::from_utf8_lossy`: the text of `bytes`, each invalid UTF-8
/// sequence replaced by U+FFFD. Stated here: the result is a function of the
/// bytes, and valid UTF-8 is decoded unchanged; what replaces an invalid
/// sequence is left unsaid.
#[verifier::external_body]
fn decode_lossy(bytes: &[u8]) -> (res: String)
    ensures
        res@ == utf8_lossy(bytes@),
        valid_utf8(bytes@) ==> res@ == decode_utf8(bytes@),
{
    String::from_utf8_lossy(bytes).into_owned()
}

/// The bytes of a C string in a buffer: up to the first NUL, or all of the
/// buffer when there is none.
pub open spec fn c_string_bytes(buf: Seq<u8>) -> Seq<u8>
    decreases buf.len(),
{
    if buf.len() == 0 {
        buf
    } else if buf[0] == 0 {
        Seq::<u8>::empty()
    } else {
        seq![buf[0]] + c_string_bytes(buf.drop_first())
    }
}

/// The text that Cheat Engine wrote as a C string into `buf`.
pub fn buffer_text(buf: &[u8]) -> (res: String)
    ensures
        res@ == utf8_lossy(c_string_bytes(buf@)),
{
    let mut len: usize = 0;
    assert(buf@.take(0) =~= Seq::<u8>::empty());
    assert(buf@.skip(0) =~= buf@);
    assert(Seq::<u8>::empty() + c_string_bytes(buf@) =~= c_string_bytes(buf@));
    while len < buf.len() && buf[len] != 0
        invariant
            len <= buf.len(),
            c_string_bytes(buf@) == buf@.take(len as int) + c_string_bytes(buf@.skip(len as int)),
        decreases buf.len() - len,
    {
        let ghost rest = buf@.skip(len as int);
        assert(rest.drop_first() =~= buf@.skip(len as int + 1));
        assert(buf@.take(len as int + 1) =~= buf@.take(len as int) + seq![buf@[len as int]]);
        assert(c_string_bytes(rest) == seq![buf@[len as int]] + c_string_bytes(rest.drop_first()));
        assert(buf@.take(len as int) + (seq![buf@[len as int]] + c_string_bytes(rest.drop_first()))
            =~= buf@.take(len as int + 1) + c_string_bytes(rest.drop_first()));
        len = len + 1;
    }
    assert(c_string_bytes(buf@.skip(len as int)) =~= Seq::<u8>::empty());
    assert(buf@.take(len as int) + Seq::<u8>::empty() =~= buf@.take(len as int));
    decode_lossy(&buf[0..len])
}

/// The machine code bytes as `XX XX ...`: each byte as two capital
/// hexadecimal digits followed by a space, the whole then trimmed.
pub open spec fn spaced_hex(bytes: Seq<u8>) -> Seq<char>
    decreases bytes.len(),
{
    if bytes.len() == 0 {
        Seq::<char>::empty()
    } else {
        spaced_hex(bytes.drop_last()) + byte_hex(bytes.last()) + seq![' ']
    }
}

/// The reply to assembling `instruction`: when `ok`, the instruction and the
/// bytes it assembled to.
pub fn assemble_reply(instruction: &str, ok: bool, bytes: &[u8]) -> (res: String)
    ensures
        res@ == (if ok {
            "Assemble result: "@ + instruction@ + "\nBytes: "@ + trim(spaced_hex(bytes@))
        } else {
            "Assemble failed"@
        }),
{
    if !ok {
        let s = String::from_str("Assemble failed");
        return s;
    }
    let mut hex = String::new();
    let mut i: usize = 0;
    assert(bytes@.take(0) =~= Seq::<u8>::empty());
    while i < bytes.len()
        invariant
            i <= bytes.len(),
            hex@ == spaced_hex(bytes@.take(i as int)),
        decreases bytes.len() - i,
    {
        assert(bytes@.take(i as int + 1).drop_last() =~= bytes@.take(i as int));
        push_byte_hex(&mut hex, bytes[i]);
        push_char(&mut hex, ' ');
        i = i + 1;
    }
    assert(bytes@.take(bytes.len() as int) =~= bytes@);
    let hex_chars = to_chars(hex.as_str());
    let trimmed = string_from_chars(trim_chars(hex_chars.as_slice()));
    let mut s = String::from_str("Assemble result: ");
    s.append(instruction);
    s.append("\nBytes: ");
    s.append(trimmed.as_str());
    assert(s@ =~= "Assemble result: "@ + instruction@ + "\nBytes: "@ + trim(spaced_hex(bytes@)));
    s
}

/// The reply to an Auto Assembler run that returned `result`.
pub fn auto_assemble_reply(result: i32) -> (res: String)
    ensures
        res@ == "AutoAssemble result: "@ + int_text(result as int),
{
    let mut s = String::from_str("AutoAssemble result: ");
    push_int(&mut s, result as i64);
    assert(s@ =~= "AutoAssemble result: "@ + int_text(result as int));
    s
}

/// The reply to disassembling `address`: the instruction text when `ok`.
pub fn disassemble_reply(address: usize, ok: bool, instruction: &str) -> (res: String)
    ensures
        res@ == (if ok {
            "Disassemble result (0x"@ + hex_digits(address as nat) + "): "@ + instruction@
        } else {
            "Disassemble failed"@
        }),
{
    if ok {
        let mut s = String::from_str("Disassemble result (0x");
        push_hex(&mut s, address as u64);
        s.append("): ");
        s.append(instruction);
        assert(s@ =~= "Disassemble result (0x"@ + hex_digits(address as nat) + "): "@ + instruction@);
        s
    } else {
        let mut s = String::from_str("Disassemble failed");
        assert(s@ =~= "Disassemble failed"@);
        s
    }
}

/// The reply to creating a form, with the new form's address.
pub fn create_form_reply(form: usize) -> (res: String)
    ensures
        res@ == "CreateForm result: Form pointer = 0x"@ + hex_digits(form as nat),
{
    let mut s = String::from_str("CreateForm result: Form pointer = 0x");
    push_hex(&mut s, form as u64);
    assert(s@ =~= "CreateForm result: Form pointer = 0x"@ + hex_digits(form as nat));
    s
}

/// The reply to creating a control, with the new control's address.
pub fn create_control_reply(control: usize) -> (res: String)
    ensures
        res@ == "CreateControl result: 0x"@ + hex_digits(control as nat),
{
    let mut s = String::from_str("CreateControl result: 0x");
    push_hex(&mut s, control as u64);
    assert(s@ =~= "CreateControl result: 0x"@ + hex_digits(control as nat));
    s
}

/// The reply to reading a control's caption.
pub fn get_caption_reply(caption: &str) -> (res: String)
    ensures
        res@ == "GetCaption result: "@ + caption@,
{
    let mut s = String::from_str("GetCaption result: ");
    s.append(caption);
    assert(s@ =~= "GetCaption result: "@ + caption@);
    s
}

/// The reply to reading a control's position.
pub fn get_position_reply(x: i32, y: i32) -> (res: String)
    ensures
        res@ == "GetPosition result: X="@ + int_text(x as int) + ", Y="@ + int_text(y as int),
{
    let mut s = String::from_str("GetPosition result: X=");
    push_int(&mut s, x as i64);
    s.append(", Y=");
    push_int(&mut s, y as i64);
    assert(s@ =~= "GetPosition result: X="@ + int_text(x as int) + ", Y="@ + int_text(y as int));
    s
}

/// The reply to reading a control's size.
pub fn get_size_reply(width: i32, height: i32) -> (res: String)
    ensures
        res@ == "GetSize result: W="@ + int_text(width as int) + ", H="@ + int_text(height as int),
{
    let mut s = String::from_str("GetSize result: W=");
    push_int(&mut s, width as i64);
    s.append(", H=");
    push_int(&mut s, height as i64);
    assert(s@ =~= "GetSize result: W="@ + int_text(width as int) + ", H="@ + int_text(height as int));
    s
}

/// The reply to creating an address-list entry: its address when one was made (`ok`).
pub fn create_table_entry_reply(ok: bool, entry: usize) -> (res: String)
    ensures
        res@ == (if ok {
            "CreateTableEntry result: 0x"@ + hex_digits(entry as nat)
        } else {
            "CreateTableEntry failed"@
        }),
{
    if ok {
        let mut s = String::from_str("CreateTableEntry result: 0x");
        push_hex(&mut s, entry as u64);
        assert(s@ =~= "CreateTableEntry result: 0x"@ + hex_digits(entry as nat));
        s
    } else {
        let mut s = String::from_str("CreateTableEntry failed");
        assert(s@ =~= "CreateTableEntry failed"@);
        s
    }
}

/// The reply to looking up an address-list entry.
pub fn get_table_entry_reply(entry: usize) -> (res: String)
    ensures
        res@ == "GetTableEntry result: 0x"@ + hex_digits(entry as nat),
{
    let mut s = String::from_str("GetTableEntry result: 0x");
    push_hex(&mut s, entry as u64);
    assert(s@ =~= "GetTableEntry result: 0x"@ + hex_digits(entry as nat));
    s
}

/// The reply to reading an entry's description.
pub fn get_entry_description_reply(description: &str) -> (res: String)
    ensures
        res@ == "GetEntryDescription result: "@ + description@,
{
    let mut s = String::from_str("GetEntryDescription result: ");
    s.append(description);
    assert(s@ =~= "GetEntryDescription result: "@ + description@);
    s
}

/// The reply to reading an entry's address text.
pub fn get_entry_address_reply(address: &str) -> (res: String)
    ensures
        res@ == "GetEntryAddress result: "@ + address@,
{
    let mut s = String::from_str("GetEntryAddress result: ");
    s.append(address);
    assert(s@ =~= "GetEntryAddress result: "@ + address@);
    s
}

/// The reply to reading an entry's value type.
pub fn get_entry_type_reply(type_id: i32) -> (res: String)
    ensures
        res@ == "GetEntryType result: "@ + int_text(type_id as int),
{
    let mut s = String::from_str("GetEntryType result: ");
    push_int(&mut s, type_id as i64);
    assert(s@ =~= "GetEntryType result: "@ + int_text(type_id as int));
    s
}

/// The reply to reading an entry's value.
pub fn get_entry_value_reply(value: &str) -> (res: String)
    ensures
        res@ == "GetEntryValue result: "@ + value@,
{
    let mut s = String::from_str("GetEntryValue result: ");
    s.append(value);
    assert(s@ =~= "GetEntryValue result: "@ + value@);
    s
}

/// The reply to reading an entry's script.
pub fn get_entry_script_reply(script: &str) -> (res: String)
    ensures
        res@ == "GetEntryScript result: "@ + script@,
{
    let mut s = String::from_str("GetEntryScript result: ");
    s.append(script);
    assert(s@ =~= "GetEntryScript result: "@ + script@);
    s
}

/// The reply to opening the process `process_id`.
pub fn open_process_reply(process_id: u32, ok: bool) -> (res: String)
    ensures
        res@ == (if ok {
            "OpenProcess success: "@ + dec_digits(process_id as nat)
        } else {
            "OpenProcess failed: "@ + dec_digits(process_id as nat)
        }),
{
    if ok {
        let mut s = String::from_str("OpenProcess success: ");
        push_dec(&mut s, process_id as u64);
        assert(s@ =~= "OpenProcess success: "@ + dec_digits(process_id as nat));
        s
    } else {
        let mut s = String::from_str("OpenProcess failed: ");
        push_dec(&mut s, process_id as u64);
        assert(s@ =~= "OpenProcess failed: "@ + dec_digits(process_id as nat));
        s
    }
}

/// The reply to looking up a process id by name.
pub fn get_process_id_reply(process_id: u32) -> (res: String)
    ensures
        res@ == "GetProcessId result: "@ + dec_digits(process_id as nat),
{
    let mut s = String::from_str("GetProcessId result: ");
    push_dec(&mut s, process_id as u64);
    assert(s@ =~= "GetProcessId result: "@ + dec_digits(process_id as nat));
    s
}

/// The reply to attaching the debugger to `process_id`.
pub fn debug_process_reply(process_id: u32, ok: bool) -> (res: String)
    ensures
        res@ == (if ok {
            "DebugProcess success: "@ + dec_digits(process_id as nat)
        } else {
            "DebugProcess failed: "@ + dec_digits(process_id as nat)
        }),
{
    if ok {
        let mut s = String::from_str("DebugProcess success: ");
        push_dec(&mut s, process_id as u64);
        assert(s@ =~= "DebugProcess success: "@ + dec_digits(process_id as nat));
        s
    } else {
        let mut s = String::from_str("DebugProcess failed: ");
        push_dec(&mut s, process_id as u64);
        assert(s@ =~= "DebugProcess failed: "@ + dec_digits(process_id as nat));
        s
    }
}

/// The reply to changing a register at `address`.
pub fn change_register_reply(address: usize, ok: bool) -> (res: String)
    ensures
        res@ == (if ok {
            "ChangeRegister success at 0x"@ + hex_digits(address as nat)
        } else {
            "ChangeRegister failed"@
        }),
{
    if ok {
        let mut s = String::from_str("ChangeRegister success at 0x");
        push_hex(&mut s, address as u64);
        assert(s@ =~= "ChangeRegister success at 0x"@ + hex_digits(address as nat));
        s
    } else {
        let mut s = String::from_str("ChangeRegister failed");
        assert(s@ =~= "ChangeRegister failed"@);
        s
    }
}

/// The change that a register command asks for: `register=value`.
pub fn register_assignment(reg: &str, value: &str) -> (res: String)
    ensures
        res@ == reg@ + "="@ + value@,
{
    let mut s = String::from_str(reg);
    s.append("=");
    s.append(value);
    assert(s@ =~= reg@ + "="@ + value@);
    s
}

/// The reply to injecting the DLL at `path`.
pub fn inject_dll_reply(path: &str, ok: bool) -> (res: String)
    ensures
        res@ == (if ok {
            "InjectDLL success: "@ + path@
        } else {
            "InjectDLL failed"@
        }),
{
    if ok {
        let mut s = String::from_str("InjectDLL success: ");
        s.append(path);
        assert(s@ =~= "InjectDLL success: "@ + path@);
        s
    } else {
        let mut s = String::from_str("InjectDLL failed");
        assert(s@ =~= "InjectDLL failed"@);
        s
    }
}

/// The reply to naming an address: the symbol name when `ok`.
pub fn address_to_name_reply(ok: bool, name: &str) -> (res: String)
    ensures
        res@ == (if ok {
            "AddressToName result: "@ + name@
        } else {
            "AddressToName failed"@
        }),
{
    if ok {
        let mut s = String::from_str("AddressToName result: ");
        s.append(name);
        assert(s@ =~= "AddressToName result: "@ + name@);
        s
    } else {
        let mut s = String::from_str("AddressToName failed");
        assert(s@ =~= "AddressToName failed"@);
        s
    }
}

/// The reply to looking up a symbol: its address when `ok`.
pub fn name_to_address_reply(ok: bool, address: usize) -> (res: String)
    ensures
        res@ == (if ok {
            "NameToAddress result: 0x"@ + hex_digits(address as nat)
        } else {
            "NameToAddress failed"@
        }),
{
    if ok {
        let mut s = String::from_str("NameToAddress result: 0x");
        push_hex(&mut s, address as u64);
        assert(s@ =~= "NameToAddress result: 0x"@ + hex_digits(address as nat));
        s
    } else {
        let mut s = String::from_str("NameToAddress failed");
        assert(s@ =~= "NameToAddress failed"@);
        s
    }
}

/// The reply to following a pointer chain.
pub fn address_from_pointer_reply(address: usize) -> (res: String)
    ensures
        res@ == "GetAddressFromPointer result: 0x"@ + hex_digits(address as nat),
{
    let mut s = String::from_str("GetAddressFromPointer result: 0x");
    push_hex(&mut s, address as u64);
    assert(s@ =~= "GetAddressFromPointer result: 0x"@ + hex_digits(address as nat));
    s
}

/// The reply to finding the instruction before an address.
pub fn previous_opcode_reply(address: usize) -> (res: String)
    ensures
        res@ == "PreviousOpcode result: 0x"@ + hex_digits(address as nat),
{
    let mut s = String::from_str("PreviousOpcode result: 0x");
    push_hex(&mut s, address as u64);
    assert(s@ =~= "PreviousOpcode result: 0x"@ + hex_digits(address as nat));
    s
}

/// The reply to finding the instruction after an address.
pub fn next_opcode_reply(address: usize) -> (res: String)
    ensures
        res@ == "NextOpcode result: 0x"@ + hex_digits(address as nat),
{
    let mut s = String::from_str("NextOpcode result: 0x");
    push_hex(&mut s, address as u64);
    assert(s@ =~= "NextOpcode result: 0x"@ + hex_digits(address as nat));
    s
}

/// The reply to setting a breakpoint at `address`.
pub fn set_breakpoint_reply(address: usize, ok: bool) -> (res: String)
    ensures
        res@ == (if ok {
            "SetBreakpoint success at 0x"@ + hex_digits(address as nat)
        } else {
            "SetBreakpoint failed"@
        }),
{
    if ok {
        let mut s = String::from_str("SetBreakpoint success at 0x");
        push_hex(&mut s, address as u64);
        assert(s@ =~= "SetBreakpoint success at 0x"@ + hex_digits(address as nat));
        s
    } else {
        let mut s = String::from_str("SetBreakpoint failed");
        assert(s@ =~= "SetBreakpoint failed"@);
        s
    }
}

/// The reply to removing the breakpoint at `address`.
pub fn remove_breakpoint_reply(address: usize, ok: bool) -> (res: String)
    ensures
        res@ == (if ok {
            "RemoveBreakpoint success at 0x"@ + hex_digits(address as nat)
        } else {
            "RemoveBreakpoint failed"@
        }),
{
    if ok {
        let mut s = String::from_str("RemoveBreakpoint success at 0x");
        push_hex(&mut s, address as u64);
        assert(s@ =~= "RemoveBreakpoint success at 0x"@ + hex_digits(address as nat));
        s
    } else {
        let mut s = String::from_str("RemoveBreakpoint failed");
        assert(s@ =~= "RemoveBreakpoint failed"@);
        s
    }
}

/// The reply to continuing from a breakpoint.
pub fn continue_reply(ok: bool) -> (res: String)
    ensures
        res@ == (if ok {
            "ContinueFromBreakpoint success"@
        } else {
            "ContinueFromBreakpoint failed"@
        }),
{
    if ok {
        let mut s = String::from_str("ContinueFromBreakpoint success");
        assert(s@ =~= "ContinueFromBreakpoint success"@);
        s
    } else {
        let mut s = String::from_str("ContinueFromBreakpoint failed");
        assert(s@ =~= "ContinueFromBreakpoint failed"@);
        s
    }
}

/// The reply to a read of `address` that gave the value written as `value`.
pub fn read_memory_reply(address: usize, value: &str) -> (res: String)
    ensures
        res@ == "ReadMemory: 0x"@ + hex_digits(address as nat) + " = "@ + value@,
{
    let mut s = String::from_str("ReadMemory: 0x");
    push_hex(&mut s, address as u64);
    s.append(" = ");
    s.append(value);
    assert(s@ =~= "ReadMemory: 0x"@ + hex_digits(address as nat) + " = "@ + value@);
    s
}

/// The reply to a read of `address` that failed.
pub fn read_memory_failed_reply(address: usize) -> (res: String)
    ensures
        res@ == "ReadMemory failed at 0x"@ + hex_digits(address as nat),
{
    let mut s = String::from_str("ReadMemory failed at 0x");
    push_hex(&mut s, address as u64);
    assert(s@ =~= "ReadMemory failed at 0x"@ + hex_digits(address as nat));
    s
}

/// The reply to writing the value `value` to `address`.
pub fn write_memory_reply(address: usize, value: &str, ok: bool) -> (res: String)
    ensures
        res@ == (if ok {
            "WriteMemory success: 0x"@ + hex_digits(address as nat) + " = "@ + value@
        } else {
            "WriteMemory failed at 0x"@ + hex_digits(address as nat)
        }),
{
    if ok {
        let mut s = String::from_str("WriteMemory success: 0x");
        push_hex(&mut s, address as u64);
        s.append(" = ");
        s.append(value);
        assert(s@ =~= "WriteMemory success: 0x"@ + hex_digits(address as nat) + " = "@ + value@);
        s
    } else {
        let mut s = String::from_str("WriteMemory failed at 0x");
        push_hex(&mut s, address as u64);
        assert(s@ =~= "WriteMemory failed at 0x"@ + hex_digits(address as nat));
        s
    }
}
} // verus!
