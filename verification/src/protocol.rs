//! The text protocol between the AI bridge and the plugin: one command per
//! line, written `NAME:parameters`, parameters separated by commas.
use vstd::prelude::*;
use crate::number::{
    float_text_spec, hex_digits, is_float_text, lemma_hex_address_roundtrip, parse_address_chars, parse_address_spec, parse_i32, parse_i32_spec, parse_u32,
    parse_u32_spec, ParseIntError,
};
use crate::text::{
    free_of, lemma_split_first, lemma_split_free, lemma_split_one, chars_eq_str, eq_ignore_ascii_case, eq_ignore_ascii_case_spec, pieces_view, split_all,
    split_chars, splitn, string_from_chars, to_chars,
};

verus! {

broadcast use vstd::string::group_string_axioms;

/// A command of the text protocol, read from a line `NAME:parameters`.
#[derive(Debug, Clone, PartialEq)]
#[allow(inconsistent_fields)]
pub enum Command {
    /// Show a message box with this text.
    ShowMessage(String),
    /// Read memory at an address: `READ_MEMORY:address,type`.
    ReadMemory { address: usize, type_: String },
    /// Write a value to memory: `WRITE_MEMORY:address,value,type`.
    WriteMemory { address: usize, value: String, type_: String },
    /// Assemble an instruction at an address: `ASSEMBLE:address,instruction`.
    Assemble { address: usize, instruction: String },
    /// Disassemble the instruction at an address.
    Disassemble { address: usize },
    /// Run an Auto Assembler script.
    AutoAssemble { script: String },
    /// Create a form.
    CreateForm,
    /// Create a panel on an owner control.
    CreatePanel { owner: usize },
    /// Create a button on an owner control.
    CreateButton { owner: usize },
    /// Create a label on an owner control.
    CreateLabel { owner: usize },
    /// Create an edit box on an owner control.
    CreateEdit { owner: usize },
    /// Create an image on an owner control.
    CreateImage { owner: usize },
    /// Create a memo on an owner control.
    CreateMemo { owner: usize },
    /// Create a group box on an owner control.
    CreateGroupBox { owner: usize },
    /// Create a timer on an owner control.
    CreateTimer { owner: usize },
    /// Set a control's caption: `SET_CAPTION:control,caption`.
    SetCaption { control: usize, caption: String },
    /// Get a control's caption.
    GetCaption { control: usize },
    /// Move a control: `SET_POSITION:control,x,y`.
    SetPosition { control: usize, x: i32, y: i32 },
    /// Get a control's position.
    GetPosition { control: usize },
    /// Resize a control: `SET_SIZE:control,width,height`.
    SetSize { control: usize, width: i32, height: i32 },
    /// Get a control's size.
    GetSize { control: usize },
    /// Destroy an object.
    DestroyObject { object: usize },
    /// Center a form on the screen.
    FormCenterScreen { form: usize },
    /// Hide a form.
    FormHide { form: usize },
    /// Show a form.
    FormShow { form: usize },
    /// Load a picture file into an image: `IMAGE_LOAD_IMAGE_FROM_FILE:image,filename`.
    ImageLoadFromFile { image: usize, filename: String },
    /// Make an image transparent or not: `IMAGE_TRANSPARENT:image,flag`.
    ImageTransparent { image: usize, transparent: bool },
    /// Make an image stretch or not: `IMAGE_STRETCH:image,flag`.
    ImageStretch { image: usize, stretch: bool },
    /// Set a timer's interval in milliseconds: `TIMER_SET_INTERVAL:timer,interval`.
    TimerSetInterval { timer: usize, interval: i32 },
    /// Create an address-list entry: `CREATE_TABLE_ENTRY:description,address,type`.
    CreateTableEntry { description: String, address: String, type_: String },
    /// Get the address-list entry at an index.
    GetTableEntry { index: i32 },
    /// Set an entry's description: `SET_ENTRY_DESCRIPTION:index,description`.
    SetEntryDescription { index: i32, description: String },
    /// Get an entry's description.
    GetEntryDescription { index: i32 },
    /// Set an entry's address text: `SET_ENTRY_ADDRESS:index,address`.
    SetEntryAddress { index: i32, address: String },
    /// Get an entry's address text.
    GetEntryAddress { index: i32 },
    /// Set an entry's value type: `SET_ENTRY_TYPE:index,type`.
    SetEntryType { index: i32, type_: String },
    /// Get an entry's value type.
    GetEntryType { index: i32 },
    /// Set an entry's value: `SET_ENTRY_VALUE:index,value`.
    SetEntryValue { index: i32, value: String },
    /// Get an entry's value.
    GetEntryValue { index: i32 },
    /// Set an entry's script: `SET_ENTRY_SCRIPT:index,script`.
    SetEntryScript { index: i32, script: String },
    /// Get an entry's script.
    GetEntryScript { index: i32 },
    /// Freeze an entry.
    FreezeEntry { index: i32 },
    /// Unfreeze an entry.
    UnfreezeEntry { index: i32 },
    /// Delete an entry.
    DeleteEntry { index: i32 },
    /// List the processes.
    ProcessList,
    /// Open the process with this id.
    OpenProcess { process_id: u32 },
    /// Get the id of the process with this name.
    GetProcessId { process_name: String },
    /// Pause the opened process.
    PauseProcess,
    /// Resume the opened process.
    UnpauseProcess,
    /// Attach the debugger to the process with this id.
    DebugProcess { process_id: u32 },
    /// Change a register when an address is reached: `CHANGE_REGISTER:address,register,value`.
    ChangeRegister { address: usize, reg: String, value: String },
    /// Inject a DLL and optionally call a function of it: `INJECT_DLL:path[,function]`.
    InjectDll { path: String, function: String },
    /// Set the speed hack factor; `speed` is the factor as sent, text that reads as an `f32` (see `float_text_spec`).
    Speedhack { speed: String },
    /// Get the symbol name of an address.
    AddressToName { address: usize },
    /// Get the address of a symbol name.
    NameToAddress { name: String },
    /// Follow a pointer chain: `GET_ADDRESS_FROM_POINTER:base,offset1,offset2,...`.
    GetAddressFromPointer { base: usize, offsets: Vec<i32> },
    /// Get the address of the instruction before an address.
    PreviousOpcode { address: usize },
    /// Get the address of the instruction after an address.
    NextOpcode { address: usize },
    /// Set a breakpoint: `SET_BREAKPOINT:address,size,trigger`.
    SetBreakpoint { address: usize, size: i32, trigger: i32 },
    /// Remove the breakpoint at an address.
    RemoveBreakpoint { address: usize },
    /// Continue from a breakpoint with a continue option.
    ContinueFromBreakpoint { option: i32 },
    /// A line that names no known command, or whose parameters do not fit it.
    Unknown(String),
}

/// The command names of the protocol.
#[derive(Debug, Clone, Copy, PartialEq, Eq, Structural)]
pub enum Verb {
    /// `SHOW_MESSAGE`
    ShowMessage,
    /// `READ_MEMORY`
    ReadMemory,
    /// `WRITE_MEMORY`
    WriteMemory,
    /// `ASSEMBLE`
    Assemble,
    /// `DISASSEMBLE`
    Disassemble,
    /// `AUTO_ASSEMBLE`
    AutoAssemble,
    /// `CREATE_FORM`
    CreateForm,
    /// `CREATE_PANEL`
    CreatePanel,
    /// `CREATE_BUTTON`
    CreateButton,
    /// `CREATE_LABEL`
    CreateLabel,
    /// `CREATE_EDIT`
    CreateEdit,
    /// `CREATE_IMAGE`
    CreateImage,
    /// `CREATE_MEMO`
    CreateMemo,
    /// `CREATE_GROUP_BOX`
    CreateGroupBox,
    /// `CREATE_TIMER`
    CreateTimer,
    /// `SET_CAPTION`
    SetCaption,
    /// `GET_CAPTION`
    GetCaption,
    /// `SET_POSITION`
    SetPosition,
    /// `GET_POSITION`
    GetPosition,
    /// `SET_SIZE`
    SetSize,
    /// `GET_SIZE`
    GetSize,
    /// `DESTROY_OBJECT`
    DestroyObject,
    /// `FORM_CENTER_SCREEN`
    FormCenterScreen,
    /// `FORM_HIDE`
    FormHide,
    /// `FORM_SHOW`
    FormShow,
    /// `IMAGE_LOAD_IMAGE_FROM_FILE`
    ImageLoadFromFile,
    /// `IMAGE_TRANSPARENT`
    ImageTransparent,
    /// `IMAGE_STRETCH`
    ImageStretch,
    /// `TIMER_SET_INTERVAL`
    TimerSetInterval,
    /// `CREATE_TABLE_ENTRY`
    CreateTableEntry,
    /// `GET_TABLE_ENTRY`
    GetTableEntry,
    /// `SET_ENTRY_DESCRIPTION`
    SetEntryDescription,
    /// `GET_ENTRY_DESCRIPTION`
    GetEntryDescription,
    /// `SET_ENTRY_ADDRESS`
    SetEntryAddress,
    /// `GET_ENTRY_ADDRESS`
    GetEntryAddress,
    /// `SET_ENTRY_TYPE`
    SetEntryType,
    /// `GET_ENTRY_TYPE`
    GetEntryType,
    /// `SET_ENTRY_VALUE`
    SetEntryValue,
    /// `GET_ENTRY_VALUE`
    GetEntryValue,
    /// `SET_ENTRY_SCRIPT`
    SetEntryScript,
    /// `GET_ENTRY_SCRIPT`
    GetEntryScript,
    /// `FREEZE_ENTRY`
    FreezeEntry,
    /// `UNFREEZE_ENTRY`
    UnfreezeEntry,
    /// `DELETE_ENTRY`
    DeleteEntry,
    /// `PROCESS_LIST`
    ProcessList,
    /// `OPEN_PROCESS`
    OpenProcess,
    /// `GET_PROCESS_ID`
    GetProcessId,
    /// `PAUSE_PROCESS`
    PauseProcess,
    /// `UNPAUSE_PROCESS`
    UnpauseProcess,
    /// `DEBUG_PROCESS`
    DebugProcess,
    /// `CHANGE_REGISTER`
    ChangeRegister,
    /// `INJECT_DLL`
    InjectDll,
    /// `SPEEDHACK`
    Speedhack,
    /// `ADDRESS_TO_NAME`
    AddressToName,
    /// `NAME_TO_ADDRESS`
    NameToAddress,
    /// `GET_ADDRESS_FROM_POINTER`
    GetAddressFromPointer,
    /// `PREVIOUS_OPCODE`
    PreviousOpcode,
    /// `NEXT_OPCODE`
    NextOpcode,
    /// `SET_BREAKPOINT`
    SetBreakpoint,
    /// `REMOVE_BREAKPOINT`
    RemoveBreakpoint,
    /// `CONTINUE_FROM_BREAKPOINT`
    ContinueFromBreakpoint,
}

/// The command that the name `name` stands for.
pub open spec fn verb_of(name: Seq<char>) -> Option<Verb> {
    if name == "SHOW_MESSAGE"@ {
        Some(Verb::ShowMessage)
    } else if name == "READ_MEMORY"@ {
        Some(Verb::ReadMemory)
    } else if name == "WRITE_MEMORY"@ {
        Some(Verb::WriteMemory)
    } else if name == "ASSEMBLE"@ {
        Some(Verb::Assemble)
    } else if name == "DISASSEMBLE"@ {
        Some(Verb::Disassemble)
    } else if name == "AUTO_ASSEMBLE"@ {
        Some(Verb::AutoAssemble)
    } else if name == "CREATE_FORM"@ {
        Some(Verb::CreateForm)
    } else if name == "CREATE_PANEL"@ {
        Some(Verb::CreatePanel)
    } else if name == "CREATE_BUTTON"@ {
        Some(Verb::CreateButton)
    } else if name == "CREATE_LABEL"@ {
        Some(Verb::CreateLabel)
    } else if name == "CREATE_EDIT"@ {
        Some(Verb::CreateEdit)
    } else if name == "CREATE_IMAGE"@ {
        Some(Verb::CreateImage)
    } else if name == "CREATE_MEMO"@ {
        Some(Verb::CreateMemo)
    } else if name == "CREATE_GROUP_BOX"@ {
        Some(Verb::CreateGroupBox)
    } else if name == "CREATE_TIMER"@ {
        Some(Verb::CreateTimer)
    } else if name == "SET_CAPTION"@ {
        Some(Verb::SetCaption)
    } else if name == "GET_CAPTION"@ {
        Some(Verb::GetCaption)
    } else if name == "SET_POSITION"@ {
        Some(Verb::SetPosition)
    } else if name == "GET_POSITION"@ {
        Some(Verb::GetPosition)
    } else if name == "SET_SIZE"@ {
        Some(Verb::SetSize)
    } else if name == "GET_SIZE"@ {
        Some(Verb::GetSize)
    } else if name == "DESTROY_OBJECT"@ {
        Some(Verb::DestroyObject)
    } else if name == "FORM_CENTER_SCREEN"@ {
        Some(Verb::FormCenterScreen)
    } else if name == "FORM_HIDE"@ {
        Some(Verb::FormHide)
    } else if name == "FORM_SHOW"@ {
        Some(Verb::FormShow)
    } else if name == "IMAGE_LOAD_IMAGE_FROM_FILE"@ {
        Some(Verb::ImageLoadFromFile)
    } else if name == "IMAGE_TRANSPARENT"@ {
        Some(Verb::ImageTransparent)
    } else if name == "IMAGE_STRETCH"@ {
        Some(Verb::ImageStretch)
    } else if name == "TIMER_SET_INTERVAL"@ {
        Some(Verb::TimerSetInterval)
    } else if name == "CREATE_TABLE_ENTRY"@ {
        Some(Verb::CreateTableEntry)
    } else if name == "GET_TABLE_ENTRY"@ {
        Some(Verb::GetTableEntry)
    } else if name == "SET_ENTRY_DESCRIPTION"@ {
        Some(Verb::SetEntryDescription)
    } else if name == "GET_ENTRY_DESCRIPTION"@ {
        Some(Verb::GetEntryDescription)
    } else if name == "SET_ENTRY_ADDRESS"@ {
        Some(Verb::SetEntryAddress)
    } else if name == "GET_ENTRY_ADDRESS"@ {
        Some(Verb::GetEntryAddress)
    } else if name == "SET_ENTRY_TYPE"@ {
        Some(Verb::SetEntryType)
    } else if name == "GET_ENTRY_TYPE"@ {
        Some(Verb::GetEntryType)
    } else if name == "SET_ENTRY_VALUE"@ {
        Some(Verb::SetEntryValue)
    } else if name == "GET_ENTRY_VALUE"@ {
        Some(Verb::GetEntryValue)
    } else if name == "SET_ENTRY_SCRIPT"@ {
        Some(Verb::SetEntryScript)
    } else if name == "GET_ENTRY_SCRIPT"@ {
        Some(Verb::GetEntryScript)
    } else if name == "FREEZE_ENTRY"@ {
        Some(Verb::FreezeEntry)
    } else if name == "UNFREEZE_ENTRY"@ {
        Some(Verb::UnfreezeEntry)
    } else if name == "DELETE_ENTRY"@ {
        Some(Verb::DeleteEntry)
    } else if name == "PROCESS_LIST"@ {
        Some(Verb::ProcessList)
    } else if name == "OPEN_PROCESS"@ {
        Some(Verb::OpenProcess)
    } else if name == "GET_PROCESS_ID"@ {
        Some(Verb::GetProcessId)
    } else if name == "PAUSE_PROCESS"@ {
        Some(Verb::PauseProcess)
    } else if name == "UNPAUSE_PROCESS"@ {
        Some(Verb::UnpauseProcess)
    } else if name == "DEBUG_PROCESS"@ {
        Some(Verb::DebugProcess)
    } else if name == "CHANGE_REGISTER"@ {
        Some(Verb::ChangeRegister)
    } else if name == "INJECT_DLL"@ {
        Some(Verb::InjectDll)
    } else if name == "SPEEDHACK"@ {
        Some(Verb::Speedhack)
    } else if name == "ADDRESS_TO_NAME"@ {
        Some(Verb::AddressToName)
    } else if name == "NAME_TO_ADDRESS"@ {
        Some(Verb::NameToAddress)
    } else if name == "GET_ADDRESS_FROM_POINTER"@ {
        Some(Verb::GetAddressFromPointer)
    } else if name == "PREVIOUS_OPCODE"@ {
        Some(Verb::PreviousOpcode)
    } else if name == "NEXT_OPCODE"@ {
        Some(Verb::NextOpcode)
    } else if name == "SET_BREAKPOINT"@ {
        Some(Verb::SetBreakpoint)
    } else if name == "REMOVE_BREAKPOINT"@ {
        Some(Verb::RemoveBreakpoint)
    } else if name == "CONTINUE_FROM_BREAKPOINT"@ {
        Some(Verb::ContinueFromBreakpoint)
    } else {
        None
    }
}

/// The command that the name `name` stands for.
pub fn lookup_verb(name: &[char]) -> (res: Option<Verb>)
    ensures
        res == verb_of(name@),
{
    if chars_eq_str(name, "SHOW_MESSAGE") {
        Some(Verb::ShowMessage)
    } else if chars_eq_str(name, "READ_MEMORY") {
        Some(Verb::ReadMemory)
    } else if chars_eq_str(name, "WRITE_MEMORY") {
        Some(Verb::WriteMemory)
    } else if chars_eq_str(name, "ASSEMBLE") {
        Some(Verb::Assemble)
    } else if chars_eq_str(name, "DISASSEMBLE") {
        Some(Verb::Disassemble)
    } else if chars_eq_str(name, "AUTO_ASSEMBLE") {
        Some(Verb::AutoAssemble)
    } else if chars_eq_str(name, "CREATE_FORM") {
        Some(Verb::CreateForm)
    } else if chars_eq_str(name, "CREATE_PANEL") {
        Some(Verb::CreatePanel)
    } else if chars_eq_str(name, "CREATE_BUTTON") {
        Some(Verb::CreateButton)
    } else if chars_eq_str(name, "CREATE_LABEL") {
        Some(Verb::CreateLabel)
    } else if chars_eq_str(name, "CREATE_EDIT") {
        Some(Verb::CreateEdit)
    } else if chars_eq_str(name, "CREATE_IMAGE") {
        Some(Verb::CreateImage)
    } else if chars_eq_str(name, "CREATE_MEMO") {
        Some(Verb::CreateMemo)
    } else if chars_eq_str(name, "CREATE_GROUP_BOX") {
        Some(Verb::CreateGroupBox)
    } else if chars_eq_str(name, "CREATE_TIMER") {
        Some(Verb::CreateTimer)
    } else if chars_eq_str(name, "SET_CAPTION") {
        Some(Verb::SetCaption)
    } else if chars_eq_str(name, "GET_CAPTION") {
        Some(Verb::GetCaption)
    } else if chars_eq_str(name, "SET_POSITION") {
        Some(Verb::SetPosition)
    } else if chars_eq_str(name, "GET_POSITION") {
        Some(Verb::GetPosition)
    } else if chars_eq_str(name, "SET_SIZE") {
        Some(Verb::SetSize)
    } else if chars_eq_str(name, "GET_SIZE") {
        Some(Verb::GetSize)
    } else if chars_eq_str(name, "DESTROY_OBJECT") {
        Some(Verb::DestroyObject)
    } else if chars_eq_str(name, "FORM_CENTER_SCREEN") {
        Some(Verb::FormCenterScreen)
    } else if chars_eq_str(name, "FORM_HIDE") {
        Some(Verb::FormHide)
    } else if chars_eq_str(name, "FORM_SHOW") {
        Some(Verb::FormShow)
    } else if chars_eq_str(name, "IMAGE_LOAD_IMAGE_FROM_FILE") {
        Some(Verb::ImageLoadFromFile)
    } else if chars_eq_str(name, "IMAGE_TRANSPARENT") {
        Some(Verb::ImageTransparent)
    } else if chars_eq_str(name, "IMAGE_STRETCH") {
        Some(Verb::ImageStretch)
    } else if chars_eq_str(name, "TIMER_SET_INTERVAL") {
        Some(Verb::TimerSetInterval)
    } else if chars_eq_str(name, "CREATE_TABLE_ENTRY") {
        Some(Verb::CreateTableEntry)
    } else if chars_eq_str(name, "GET_TABLE_ENTRY") {
        Some(Verb::GetTableEntry)
    } else if chars_eq_str(name, "SET_ENTRY_DESCRIPTION") {
        Some(Verb::SetEntryDescription)
    } else if chars_eq_str(name, "GET_ENTRY_DESCRIPTION") {
        Some(Verb::GetEntryDescription)
    } else if chars_eq_str(name, "SET_ENTRY_ADDRESS") {
        Some(Verb::SetEntryAddress)
    } else if chars_eq_str(name, "GET_ENTRY_ADDRESS") {
        Some(Verb::GetEntryAddress)
    } else if chars_eq_str(name, "SET_ENTRY_TYPE") {
        Some(Verb::SetEntryType)
    } else if chars_eq_str(name, "GET_ENTRY_TYPE") {
        Some(Verb::GetEntryType)
    } else if chars_eq_str(name, "SET_ENTRY_VALUE") {
        Some(Verb::SetEntryValue)
    } else if chars_eq_str(name, "GET_ENTRY_VALUE") {
        Some(Verb::GetEntryValue)
    } else if chars_eq_str(name, "SET_ENTRY_SCRIPT") {
        Some(Verb::SetEntryScript)
    } else if chars_eq_str(name, "GET_ENTRY_SCRIPT") {
        Some(Verb::GetEntryScript)
    } else if chars_eq_str(name, "FREEZE_ENTRY") {
        Some(Verb::FreezeEntry)
    } else if chars_eq_str(name, "UNFREEZE_ENTRY") {
        Some(Verb::UnfreezeEntry)
    } else if chars_eq_str(name, "DELETE_ENTRY") {
        Some(Verb::DeleteEntry)
    } else if chars_eq_str(name, "PROCESS_LIST") {
        Some(Verb::ProcessList)
    } else if chars_eq_str(name, "OPEN_PROCESS") {
        Some(Verb::OpenProcess)
    } else if chars_eq_str(name, "GET_PROCESS_ID") {
        Some(Verb::GetProcessId)
    } else if chars_eq_str(name, "PAUSE_PROCESS") {
        Some(Verb::PauseProcess)
    } else if chars_eq_str(name, "UNPAUSE_PROCESS") {
        Some(Verb::UnpauseProcess)
    } else if chars_eq_str(name, "DEBUG_PROCESS") {
        Some(Verb::DebugProcess)
    } else if chars_eq_str(name, "CHANGE_REGISTER") {
        Some(Verb::ChangeRegister)
    } else if chars_eq_str(name, "INJECT_DLL") {
        Some(Verb::InjectDll)
    } else if chars_eq_str(name, "SPEEDHACK") {
        Some(Verb::Speedhack)
    } else if chars_eq_str(name, "ADDRESS_TO_NAME") {
        Some(Verb::AddressToName)
    } else if chars_eq_str(name, "NAME_TO_ADDRESS") {
        Some(Verb::NameToAddress)
    } else if chars_eq_str(name, "GET_ADDRESS_FROM_POINTER") {
        Some(Verb::GetAddressFromPointer)
    } else if chars_eq_str(name, "PREVIOUS_OPCODE") {
        Some(Verb::PreviousOpcode)
    } else if chars_eq_str(name, "NEXT_OPCODE") {
        Some(Verb::NextOpcode)
    } else if chars_eq_str(name, "SET_BREAKPOINT") {
        Some(Verb::SetBreakpoint)
    } else if chars_eq_str(name, "REMOVE_BREAKPOINT") {
        Some(Verb::RemoveBreakpoint)
    } else if chars_eq_str(name, "CONTINUE_FROM_BREAKPOINT") {
        Some(Verb::ContinueFromBreakpoint)
    } else {
        None
    }
}

impl Verb {
    /// The name of the command on the wire.
    pub open spec fn name_spec(self) -> Seq<char> {
        match self {
            Verb::ShowMessage => "SHOW_MESSAGE"@,
            Verb::ReadMemory => "READ_MEMORY"@,
            Verb::WriteMemory => "WRITE_MEMORY"@,
            Verb::Assemble => "ASSEMBLE"@,
            Verb::Disassemble => "DISASSEMBLE"@,
            Verb::AutoAssemble => "AUTO_ASSEMBLE"@,
            Verb::CreateForm => "CREATE_FORM"@,
            Verb::CreatePanel => "CREATE_PANEL"@,
            Verb::CreateButton => "CREATE_BUTTON"@,
            Verb::CreateLabel => "CREATE_LABEL"@,
            Verb::CreateEdit => "CREATE_EDIT"@,
            Verb::CreateImage => "CREATE_IMAGE"@,
            Verb::CreateMemo => "CREATE_MEMO"@,
            Verb::CreateGroupBox => "CREATE_GROUP_BOX"@,
            Verb::CreateTimer => "CREATE_TIMER"@,
            Verb::SetCaption => "SET_CAPTION"@,
            Verb::GetCaption => "GET_CAPTION"@,
            Verb::SetPosition => "SET_POSITION"@,
            Verb::GetPosition => "GET_POSITION"@,
            Verb::SetSize => "SET_SIZE"@,
            Verb::GetSize => "GET_SIZE"@,
            Verb::DestroyObject => "DESTROY_OBJECT"@,
            Verb::FormCenterScreen => "FORM_CENTER_SCREEN"@,
            Verb::FormHide => "FORM_HIDE"@,
            Verb::FormShow => "FORM_SHOW"@,
            Verb::ImageLoadFromFile => "IMAGE_LOAD_IMAGE_FROM_FILE"@,
            Verb::ImageTransparent => "IMAGE_TRANSPARENT"@,
            Verb::ImageStretch => "IMAGE_STRETCH"@,
            Verb::TimerSetInterval => "TIMER_SET_INTERVAL"@,
            Verb::CreateTableEntry => "CREATE_TABLE_ENTRY"@,
            Verb::GetTableEntry => "GET_TABLE_ENTRY"@,
            Verb::SetEntryDescription => "SET_ENTRY_DESCRIPTION"@,
            Verb::GetEntryDescription => "GET_ENTRY_DESCRIPTION"@,
            Verb::SetEntryAddress => "SET_ENTRY_ADDRESS"@,
            Verb::GetEntryAddress => "GET_ENTRY_ADDRESS"@,
            Verb::SetEntryType => "SET_ENTRY_TYPE"@,
            Verb::GetEntryType => "GET_ENTRY_TYPE"@,
            Verb::SetEntryValue => "SET_ENTRY_VALUE"@,
            Verb::GetEntryValue => "GET_ENTRY_VALUE"@,
            Verb::SetEntryScript => "SET_ENTRY_SCRIPT"@,
            Verb::GetEntryScript => "GET_ENTRY_SCRIPT"@,
            Verb::FreezeEntry => "FREEZE_ENTRY"@,
            Verb::UnfreezeEntry => "UNFREEZE_ENTRY"@,
            Verb::DeleteEntry => "DELETE_ENTRY"@,
            Verb::ProcessList => "PROCESS_LIST"@,
            Verb::OpenProcess => "OPEN_PROCESS"@,
            Verb::GetProcessId => "GET_PROCESS_ID"@,
            Verb::PauseProcess => "PAUSE_PROCESS"@,
            Verb::UnpauseProcess => "UNPAUSE_PROCESS"@,
            Verb::DebugProcess => "DEBUG_PROCESS"@,
            Verb::ChangeRegister => "CHANGE_REGISTER"@,
            Verb::InjectDll => "INJECT_DLL"@,
            Verb::Speedhack => "SPEEDHACK"@,
            Verb::AddressToName => "ADDRESS_TO_NAME"@,
            Verb::NameToAddress => "NAME_TO_ADDRESS"@,
            Verb::GetAddressFromPointer => "GET_ADDRESS_FROM_POINTER"@,
            Verb::PreviousOpcode => "PREVIOUS_OPCODE"@,
            Verb::NextOpcode => "NEXT_OPCODE"@,
            Verb::SetBreakpoint => "SET_BREAKPOINT"@,
            Verb::RemoveBreakpoint => "REMOVE_BREAKPOINT"@,
            Verb::ContinueFromBreakpoint => "CONTINUE_FROM_BREAKPOINT"@,
        }
    }

    /// The name of the command on the wire.
    pub fn name(&self) -> (res: &'static str)
        ensures
            res@ == self.name_spec(),
    {
        match self {
            Verb::ShowMessage => "SHOW_MESSAGE",
            Verb::ReadMemory => "READ_MEMORY",
            Verb::WriteMemory => "WRITE_MEMORY",
            Verb::Assemble => "ASSEMBLE",
            Verb::Disassemble => "DISASSEMBLE",
            Verb::AutoAssemble => "AUTO_ASSEMBLE",
            Verb::CreateForm => "CREATE_FORM",
            Verb::CreatePanel => "CREATE_PANEL",
            Verb::CreateButton => "CREATE_BUTTON",
            Verb::CreateLabel => "CREATE_LABEL",
            Verb::CreateEdit => "CREATE_EDIT",
            Verb::CreateImage => "CREATE_IMAGE",
            Verb::CreateMemo => "CREATE_MEMO",
            Verb::CreateGroupBox => "CREATE_GROUP_BOX",
            Verb::CreateTimer => "CREATE_TIMER",
            Verb::SetCaption => "SET_CAPTION",
            Verb::GetCaption => "GET_CAPTION",
            Verb::SetPosition => "SET_POSITION",
            Verb::GetPosition => "GET_POSITION",
            Verb::SetSize => "SET_SIZE",
            Verb::GetSize => "GET_SIZE",
            Verb::DestroyObject => "DESTROY_OBJECT",
            Verb::FormCenterScreen => "FORM_CENTER_SCREEN",
            Verb::FormHide => "FORM_HIDE",
            Verb::FormShow => "FORM_SHOW",
            Verb::ImageLoadFromFile => "IMAGE_LOAD_IMAGE_FROM_FILE",
            Verb::ImageTransparent => "IMAGE_TRANSPARENT",
            Verb::ImageStretch => "IMAGE_STRETCH",
            Verb::TimerSetInterval => "TIMER_SET_INTERVAL",
            Verb::CreateTableEntry => "CREATE_TABLE_ENTRY",
            Verb::GetTableEntry => "GET_TABLE_ENTRY",
            Verb::SetEntryDescription => "SET_ENTRY_DESCRIPTION",
            Verb::GetEntryDescription => "GET_ENTRY_DESCRIPTION",
            Verb::SetEntryAddress => "SET_ENTRY_ADDRESS",
            Verb::GetEntryAddress => "GET_ENTRY_ADDRESS",
            Verb::SetEntryType => "SET_ENTRY_TYPE",
            Verb::GetEntryType => "GET_ENTRY_TYPE",
            Verb::SetEntryValue => "SET_ENTRY_VALUE",
            Verb::GetEntryValue => "GET_ENTRY_VALUE",
            Verb::SetEntryScript => "SET_ENTRY_SCRIPT",
            Verb::GetEntryScript => "GET_ENTRY_SCRIPT",
            Verb::FreezeEntry => "FREEZE_ENTRY",
            Verb::UnfreezeEntry => "UNFREEZE_ENTRY",
            Verb::DeleteEntry => "DELETE_ENTRY",
            Verb::ProcessList => "PROCESS_LIST",
            Verb::OpenProcess => "OPEN_PROCESS",
            Verb::GetProcessId => "GET_PROCESS_ID",
            Verb::PauseProcess => "PAUSE_PROCESS",
            Verb::UnpauseProcess => "UNPAUSE_PROCESS",
            Verb::DebugProcess => "DEBUG_PROCESS",
            Verb::ChangeRegister => "CHANGE_REGISTER",
            Verb::InjectDll => "INJECT_DLL",
            Verb::Speedhack => "SPEEDHACK",
            Verb::AddressToName => "ADDRESS_TO_NAME",
            Verb::NameToAddress => "NAME_TO_ADDRESS",
            Verb::GetAddressFromPointer => "GET_ADDRESS_FROM_POINTER",
            Verb::PreviousOpcode => "PREVIOUS_OPCODE",
            Verb::NextOpcode => "NEXT_OPCODE",
            Verb::SetBreakpoint => "SET_BREAKPOINT",
            Verb::RemoveBreakpoint => "REMOVE_BREAKPOINT",
            Verb::ContinueFromBreakpoint => "CONTINUE_FROM_BREAKPOINT",
        }
    }
}

/// The name of a command line: what comes before the first `:`.
pub open spec fn command_name(input: Seq<char>) -> Seq<char> {
    splitn(input, 2, ':')[0]
}

/// The parameters of a command line: what comes after the first `:`, or
/// nothing when there is no `:`.
pub open spec fn command_param(input: Seq<char>) -> Seq<char> {
    let ps = splitn(input, 2, ':');
    if ps.len() > 1 {
        ps[1]
    } else {
        Seq::<char>::empty()
    }
}

/// A yes/no parameter: `1`, or `true` in any ASCII case, is yes.
pub open spec fn flag_spec(s: Seq<char>) -> bool {
    s == "1"@ || eq_ignore_ascii_case_spec(s, "true"@)
}

/// The offsets of a pointer chain: each parameter that reads as an address,
/// cut to its low 32 bits as an `i32`; the others are left out.
pub open spec fn pointer_offsets(ps: Seq<Seq<char>>) -> Seq<i32>
    decreases ps.len(),
{
    if ps.len() == 0 {
        Seq::<i32>::empty()
    } else {
        let r = pointer_offsets(ps.drop_last());
        match parse_address_spec(ps.last()) {
            Ok(v) => r.push((v as usize) as i32),
            Err(_) => r,
        }
    }
}

/// What the command line `input`, whose name stands for `verb` and whose
/// parameters are `param`, reads as.
pub open spec fn describes_verb(verb: Verb, param: Seq<char>, input: Seq<char>, c: Command) -> bool {
    let unknown = c matches Command::Unknown(raw) && raw@ == input;
    match verb {
        Verb::ReadMemory => {
            let ps = split_all(param, ',');
            if ps.len() >= 2 && parse_address_spec(ps[0]) is Ok {
                c matches Command::ReadMemory { address, type_ } && parse_address_spec(ps[0]) == Ok::<int, ParseIntError>(address as int) && type_@ == ps[1]
            } else {
                unknown
            }
        },
        Verb::WriteMemory => {
            let ps = split_all(param, ',');
            if ps.len() >= 3 && parse_address_spec(ps[0]) is Ok {
                c matches Command::WriteMemory { address, value, type_ } && parse_address_spec(ps[0]) == Ok::<int, ParseIntError>(address as int) && value@ == ps[1] && type_@ == ps[2]
            } else {
                unknown
            }
        },
        Verb::Assemble => {
            let ps = splitn(param, 2, ',');
            if ps.len() >= 2 && parse_address_spec(ps[0]) is Ok {
                c matches Command::Assemble { address, instruction } && parse_address_spec(ps[0]) == Ok::<int, ParseIntError>(address as int) && instruction@ == ps[1]
            } else {
                unknown
            }
        },
        Verb::SetCaption => {
            let ps = splitn(param, 2, ',');
            if ps.len() >= 2 && parse_address_spec(ps[0]) is Ok {
                c matches Command::SetCaption { control, caption } && parse_address_spec(ps[0]) == Ok::<int, ParseIntError>(control as int) && caption@ == ps[1]
            } else {
                unknown
            }
        },
        Verb::SetPosition => {
            let ps = split_all(param, ',');
            if ps.len() >= 3 && parse_address_spec(ps[0]) is Ok && parse_i32_spec(ps[1]) is Ok && parse_i32_spec(ps[2]) is Ok {
                c matches Command::SetPosition { control, x, y } && parse_address_spec(ps[0]) == Ok::<int, ParseIntError>(control as int) && parse_i32_spec(ps[1]) == Ok::<int, ParseIntError>(x as int) && parse_i32_spec(ps[2]) == Ok::<int, ParseIntError>(y as int)
            } else {
                unknown
            }
        },
        Verb::SetSize => {
            let ps = split_all(param, ',');
            if ps.len() >= 3 && parse_address_spec(ps[0]) is Ok && parse_i32_spec(ps[1]) is Ok && parse_i32_spec(ps[2]) is Ok {
                c matches Command::SetSize { control, width, height } && parse_address_spec(ps[0]) == Ok::<int, ParseIntError>(control as int) && parse_i32_spec(ps[1]) == Ok::<int, ParseIntError>(width as int) && parse_i32_spec(ps[2]) == Ok::<int, ParseIntError>(height as int)
            } else {
                unknown
            }
        },
        Verb::ImageLoadFromFile => {
            let ps = splitn(param, 2, ',');
            if ps.len() >= 2 && parse_address_spec(ps[0]) is Ok {
                c matches Command::ImageLoadFromFile { image, filename } && parse_address_spec(ps[0]) == Ok::<int, ParseIntError>(image as int) && filename@ == ps[1]
            } else {
                unknown
            }
        },
        Verb::ImageTransparent => {
            let ps = split_all(param, ',');
            if ps.len() >= 2 && parse_address_spec(ps[0]) is Ok {
                c matches Command::ImageTransparent { image, transparent } && parse_address_spec(ps[0]) == Ok::<int, ParseIntError>(image as int) && transparent == flag_spec(ps[1])
            } else {
                unknown
            }
        },
        Verb::ImageStretch => {
            let ps = split_all(param, ',');
            if ps.len() >= 2 && parse_address_spec(ps[0]) is Ok {
                c matches Command::ImageStretch { image, stretch } && parse_address_spec(ps[0]) == Ok::<int, ParseIntError>(image as int) && stretch == flag_spec(ps[1])
            } else {
                unknown
            }
        },
        Verb::TimerSetInterval => {
            let ps = split_all(param, ',');
            if ps.len() >= 2 && parse_address_spec(ps[0]) is Ok && parse_i32_spec(ps[1]) is Ok {
                c matches Command::TimerSetInterval { timer, interval } && parse_address_spec(ps[0]) == Ok::<int, ParseIntError>(timer as int) && parse_i32_spec(ps[1]) == Ok::<int, ParseIntError>(interval as int)
            } else {
                unknown
            }
        },
        Verb::CreateTableEntry => {
            let ps = splitn(param, 3, ',');
            if ps.len() >= 3 {
                c matches Command::CreateTableEntry { description, address, type_ } && description@ == ps[0] && address@ == ps[1] && type_@ == ps[2]
            } else {
                unknown
            }
        },
        Verb::ChangeRegister => {
            let ps = splitn(param, 3, ',');
            if ps.len() >= 3 && parse_address_spec(ps[0]) is Ok {
                c matches Command::ChangeRegister { address, reg, value } && parse_address_spec(ps[0]) == Ok::<int, ParseIntError>(address as int) && reg@ == ps[1] && value@ == ps[2]
            } else {
                unknown
            }
        },
        Verb::InjectDll => {
            let ps = splitn(param, 2, ',');
            if ps.len() >= 1 {
                c matches Command::InjectDll { path, function } && path@ == ps[0] && function@ == (if ps.len() > 1 { ps[1] } else { Seq::<char>::empty() })
            } else {
                unknown
            }
        },
        Verb::GetAddressFromPointer => {
            let ps = split_all(param, ',');
            if ps.len() >= 1 && parse_address_spec(ps[0]) is Ok {
                c matches Command::GetAddressFromPointer { base, offsets } && parse_address_spec(ps[0]) == Ok::<int, ParseIntError>(base as int) && offsets@ == pointer_offsets(ps.skip(1))
            } else {
                unknown
            }
        },
        Verb::SetBreakpoint => {
            let ps = splitn(param, 3, ',');
            if ps.len() >= 3 && parse_address_spec(ps[0]) is Ok && parse_i32_spec(ps[1]) is Ok && parse_i32_spec(ps[2]) is Ok {
                c matches Command::SetBreakpoint { address, size, trigger } && parse_address_spec(ps[0]) == Ok::<int, ParseIntError>(address as int) && parse_i32_spec(ps[1]) == Ok::<int, ParseIntError>(size as int) && parse_i32_spec(ps[2]) == Ok::<int, ParseIntError>(trigger as int)
            } else {
                unknown
            }
        },
        Verb::ShowMessage => c matches Command::ShowMessage(t) && t@ == param,
        Verb::Disassemble => if parse_address_spec(param) is Ok {
            c matches Command::Disassemble { address } && parse_address_spec(param) == Ok::<int, ParseIntError>(address as int)
        } else {
            unknown
        },
        Verb::AutoAssemble => c matches Command::AutoAssemble { script } && script@ == param,
        Verb::CreateForm => c matches Command::CreateForm,
        Verb::CreatePanel => if parse_address_spec(param) is Ok {
            c matches Command::CreatePanel { owner } && parse_address_spec(param) == Ok::<int, ParseIntError>(owner as int)
        } else {
            unknown
        },
        Verb::CreateButton => if parse_address_spec(param) is Ok {
            c matches Command::CreateButton { owner } && parse_address_spec(param) == Ok::<int, ParseIntError>(owner as int)
        } else {
            unknown
        },
        Verb::CreateLabel => if parse_address_spec(param) is Ok {
            c matches Command::CreateLabel { owner } && parse_address_spec(param) == Ok::<int, ParseIntError>(owner as int)
        } else {
            unknown
        },
        Verb::CreateEdit => if parse_address_spec(param) is Ok {
            c matches Command::CreateEdit { owner } && parse_address_spec(param) == Ok::<int, ParseIntError>(owner as int)
        } else {
            unknown
        },
        Verb::CreateImage => if parse_address_spec(param) is Ok {
            c matches Command::CreateImage { owner } && parse_address_spec(param) == Ok::<int, ParseIntError>(owner as int)
        } else {
            unknown
        },
        Verb::CreateMemo => if parse_address_spec(param) is Ok {
            c matches Command::CreateMemo { owner } && parse_address_spec(param) == Ok::<int, ParseIntError>(owner as int)
        } else {
            unknown
        },
        Verb::CreateGroupBox => if parse_address_spec(param) is Ok {
            c matches Command::CreateGroupBox { owner } && parse_address_spec(param) == Ok::<int, ParseIntError>(owner as int)
        } else {
            unknown
        },
        Verb::CreateTimer => if parse_address_spec(param) is Ok {
            c matches Command::CreateTimer { owner } && parse_address_spec(param) == Ok::<int, ParseIntError>(owner as int)
        } else {
            unknown
        },
        Verb::GetCaption => if parse_address_spec(param) is Ok {
            c matches Command::GetCaption { control } && parse_address_spec(param) == Ok::<int, ParseIntError>(control as int)
        } else {
            unknown
        },
        Verb::GetPosition => if parse_address_spec(param) is Ok {
            c matches Command::GetPosition { control } && parse_address_spec(param) == Ok::<int, ParseIntError>(control as int)
        } else {
            unknown
        },
        Verb::GetSize => if parse_address_spec(param) is Ok {
            c matches Command::GetSize { control } && parse_address_spec(param) == Ok::<int, ParseIntError>(control as int)
        } else {
            unknown
        },
        Verb::DestroyObject => if parse_address_spec(param) is Ok {
            c matches Command::DestroyObject { object } && parse_address_spec(param) == Ok::<int, ParseIntError>(object as int)
        } else {
            unknown
        },
        Verb::FormCenterScreen => if parse_address_spec(param) is Ok {
            c matches Command::FormCenterScreen { form } && parse_address_spec(param) == Ok::<int, ParseIntError>(form as int)
        } else {
            unknown
        },
        Verb::FormHide => if parse_address_spec(param) is Ok {
            c matches Command::FormHide { form } && parse_address_spec(param) == Ok::<int, ParseIntError>(form as int)
        } else {
            unknown
        },
        Verb::FormShow => if parse_address_spec(param) is Ok {
            c matches Command::FormShow { form } && parse_address_spec(param) == Ok::<int, ParseIntError>(form as int)
        } else {
            unknown
        },
        Verb::GetTableEntry => if parse_i32_spec(param) is Ok {
            c matches Command::GetTableEntry { index } && parse_i32_spec(param) == Ok::<int, ParseIntError>(index as int)
        } else {
            unknown
        },
        Verb::SetEntryDescription => {
            let ps = splitn(param, 2, ',');
            if ps.len() >= 2 && parse_i32_spec(ps[0]) is Ok {
                c matches Command::SetEntryDescription { index, description } && parse_i32_spec(ps[0]) == Ok::<int, ParseIntError>(index as int) && description@ == ps[1]
            } else {
                unknown
            }
        },
        Verb::GetEntryDescription => if parse_i32_spec(param) is Ok {
            c matches Command::GetEntryDescription { index } && parse_i32_spec(param) == Ok::<int, ParseIntError>(index as int)
        } else {
            unknown
        },
        Verb::SetEntryAddress => {
            let ps = splitn(param, 2, ',');
            if ps.len() >= 2 && parse_i32_spec(ps[0]) is Ok {
                c matches Command::SetEntryAddress { index, address } && parse_i32_spec(ps[0]) == Ok::<int, ParseIntError>(index as int) && address@ == ps[1]
            } else {
                unknown
            }
        },
        Verb::GetEntryAddress => if parse_i32_spec(param) is Ok {
            c matches Command::GetEntryAddress { index } && parse_i32_spec(param) == Ok::<int, ParseIntError>(index as int)
        } else {
            unknown
        },
        Verb::SetEntryType => {
            let ps = splitn(param, 2, ',');
            if ps.len() >= 2 && parse_i32_spec(ps[0]) is Ok {
                c matches Command::SetEntryType { index, type_ } && parse_i32_spec(ps[0]) == Ok::<int, ParseIntError>(index as int) && type_@ == ps[1]
            } else {
                unknown
            }
        },
        Verb::GetEntryType => if parse_i32_spec(param) is Ok {
            c matches Command::GetEntryType { index } && parse_i32_spec(param) == Ok::<int, ParseIntError>(index as int)
        } else {
            unknown
        },
        Verb::SetEntryValue => {
            let ps = splitn(param, 2, ',');
            if ps.len() >= 2 && parse_i32_spec(ps[0]) is Ok {
                c matches Command::SetEntryValue { index, value } && parse_i32_spec(ps[0]) == Ok::<int, ParseIntError>(index as int) && value@ == ps[1]
            } else {
                unknown
            }
        },
        Verb::GetEntryValue => if parse_i32_spec(param) is Ok {
            c matches Command::GetEntryValue { index } && parse_i32_spec(param) == Ok::<int, ParseIntError>(index as int)
        } else {
            unknown
        },
        Verb::SetEntryScript => {
            let ps = splitn(param, 2, ',');
            if ps.len() >= 2 && parse_i32_spec(ps[0]) is Ok {
                c matches Command::SetEntryScript { index, script } && parse_i32_spec(ps[0]) == Ok::<int, ParseIntError>(index as int) && script@ == ps[1]
            } else {
                unknown
            }
        },
        Verb::GetEntryScript => if parse_i32_spec(param) is Ok {
            c matches Command::GetEntryScript { index } && parse_i32_spec(param) == Ok::<int, ParseIntError>(index as int)
        } else {
            unknown
        },
        Verb::FreezeEntry => if parse_i32_spec(param) is Ok {
            c matches Command::FreezeEntry { index } && parse_i32_spec(param) == Ok::<int, ParseIntError>(index as int)
        } else {
            unknown
        },
        Verb::UnfreezeEntry => if parse_i32_spec(param) is Ok {
            c matches Command::UnfreezeEntry { index } && parse_i32_spec(param) == Ok::<int, ParseIntError>(index as int)
        } else {
            unknown
        },
        Verb::DeleteEntry => if parse_i32_spec(param) is Ok {
            c matches Command::DeleteEntry { index } && parse_i32_spec(param) == Ok::<int, ParseIntError>(index as int)
        } else {
            unknown
        },
        Verb::ProcessList => c matches Command::ProcessList,
        Verb::OpenProcess => if parse_u32_spec(param) is Ok {
            c matches Command::OpenProcess { process_id } && parse_u32_spec(param) == Ok::<int, ParseIntError>(process_id as int)
        } else {
            unknown
        },
        Verb::GetProcessId => c matches Command::GetProcessId { process_name } && process_name@ == param,
        Verb::PauseProcess => c matches Command::PauseProcess,
        Verb::UnpauseProcess => c matches Command::UnpauseProcess,
        Verb::DebugProcess => if parse_u32_spec(param) is Ok {
            c matches Command::DebugProcess { process_id } && parse_u32_spec(param) == Ok::<int, ParseIntError>(process_id as int)
        } else {
            unknown
        },
        Verb::Speedhack => if float_text_spec(param) {
            c matches Command::Speedhack { speed } && speed@ == param
        } else {
            unknown
        },
        Verb::AddressToName => if parse_address_spec(param) is Ok {
            c matches Command::AddressToName { address } && parse_address_spec(param) == Ok::<int, ParseIntError>(address as int)
        } else {
            unknown
        },
        Verb::NameToAddress => c matches Command::NameToAddress { name } && name@ == param,
        Verb::PreviousOpcode => if parse_address_spec(param) is Ok {
            c matches Command::PreviousOpcode { address } && parse_address_spec(param) == Ok::<int, ParseIntError>(address as int)
        } else {
            unknown
        },
        Verb::NextOpcode => if parse_address_spec(param) is Ok {
            c matches Command::NextOpcode { address } && parse_address_spec(param) == Ok::<int, ParseIntError>(address as int)
        } else {
            unknown
        },
        Verb::RemoveBreakpoint => if parse_address_spec(param) is Ok {
            c matches Command::RemoveBreakpoint { address } && parse_address_spec(param) == Ok::<int, ParseIntError>(address as int)
        } else {
            unknown
        },
        Verb::ContinueFromBreakpoint => if parse_i32_spec(param) is Ok {
            c matches Command::ContinueFromBreakpoint { option } && parse_i32_spec(param) == Ok::<int, ParseIntError>(option as int)
        } else {
            unknown
        },
    }
}

/// What the command line `input` reads as: the command its name stands
/// for, with its parameters; `Unknown` holding the whole line when the name
/// is no command's or the parameters do not fit.
pub open spec fn describes(c: Command, input: Seq<char>) -> bool {
    match verb_of(command_name(input)) {
        None => c matches Command::Unknown(raw) && raw@ == input,
        Some(verb) => describes_verb(verb, command_param(input), input, c),
    }
}

/// `Unknown` holding the whole line.
fn unknown_command(input: &[char]) -> (res: Command)
    ensures
        res matches Command::Unknown(raw) && raw@ == input@,
{
    Command::Unknown(string_from_chars(input))
}

/// Reads a yes/no parameter (see `flag_spec`).
pub fn read_flag(s: &[char]) -> (res: bool)
    ensures
        res == flag_spec(s@),
{
    let yes = to_chars("true");
    chars_eq_str(s, "1") || eq_ignore_ascii_case(s, yes.as_slice())
}

/// The offsets of a pointer chain, from every parameter after the first.
fn read_offsets(ps: &Vec<Vec<char>>) -> (res: Vec<i32>)
    requires
        ps.len() >= 1,
    ensures
        res@ == pointer_offsets(pieces_view(ps@).skip(1)),
{
    let mut offsets: Vec<i32> = Vec::new();
    let mut i: usize = 1;
    assert(pieces_view(ps@).subrange(1, 1) =~= Seq::<Seq<char>>::empty());
    while i < ps.len()
        invariant
            1 <= i <= ps.len(),
            offsets@ == pointer_offsets(pieces_view(ps@).subrange(1, i as int)),
        decreases ps.len() - i,
    {
        let ghost next = pieces_view(ps@).subrange(1, i as int + 1);
        assert(next.drop_last() =~= pieces_view(ps@).subrange(1, i as int));
        assert(next.last() == ps@[i as int]@);
        if let Ok(offset) = parse_address_chars(ps[i].as_slice()) {
            offsets.push(offset as i32);
        }
        i = i + 1;
    }
    assert(pieces_view(ps@).subrange(1, ps.len() as int) =~= pieces_view(ps@).skip(1));
    offsets
}

/// Builds the command for `verb` from its parameters `param`; `input` is
/// the whole line, kept by `Unknown`.
fn build_command(verb: Verb, param: &[char], input: &[char]) -> (res: Command)
    ensures
        describes_verb(verb, param@, input@, res),
{
    match verb {
        Verb::ReadMemory => {
            let ps = split_chars(param, ',', None);
            if ps.len() >= 2 {
                if let Ok(address) = parse_address_chars(ps[0].as_slice()) {
                    return Command::ReadMemory { address, type_: string_from_chars(ps[1].as_slice()) };
                }
            }
            unknown_command(input)
        },
        Verb::WriteMemory => {
            let ps = split_chars(param, ',', None);
            if ps.len() >= 3 {
                if let Ok(address) = parse_address_chars(ps[0].as_slice()) {
                    return Command::WriteMemory {
                        address,
                        value: string_from_chars(ps[1].as_slice()),
                        type_: string_from_chars(ps[2].as_slice()),
                    };
                }
            }
            unknown_command(input)
        },
        Verb::Assemble => {
            let ps = split_chars(param, ',', Some(2));
            if ps.len() >= 2 {
                if let Ok(address) = parse_address_chars(ps[0].as_slice()) {
                    return Command::Assemble { address, instruction: string_from_chars(ps[1].as_slice()) };
                }
            }
            unknown_command(input)
        },
        Verb::SetCaption => {
            let ps = split_chars(param, ',', Some(2));
            if ps.len() >= 2 {
                if let Ok(control) = parse_address_chars(ps[0].as_slice()) {
                    return Command::SetCaption { control, caption: string_from_chars(ps[1].as_slice()) };
                }
            }
            unknown_command(input)
        },
        Verb::SetPosition => {
            let ps = split_chars(param, ',', None);
            if ps.len() >= 3 {
                if let Ok(control) = parse_address_chars(ps[0].as_slice()) {
                    if let (Ok(x), Ok(y)) = (parse_i32(ps[1].as_slice()), parse_i32(ps[2].as_slice())) {
                        return Command::SetPosition { control, x, y };
                    }
                }
            }
            unknown_command(input)
        },
        Verb::SetSize => {
            let ps = split_chars(param, ',', None);
            if ps.len() >= 3 {
                if let Ok(control) = parse_address_chars(ps[0].as_slice()) {
                    if let (Ok(width), Ok(height)) = (parse_i32(ps[1].as_slice()), parse_i32(ps[2].as_slice())) {
                        return Command::SetSize { control, width, height };
                    }
                }
            }
            unknown_command(input)
        },
        Verb::ImageLoadFromFile => {
            let ps = split_chars(param, ',', Some(2));
            if ps.len() >= 2 {
                if let Ok(image) = parse_address_chars(ps[0].as_slice()) {
                    return Command::ImageLoadFromFile { image, filename: string_from_chars(ps[1].as_slice()) };
                }
            }
            unknown_command(input)
        },
        Verb::ImageTransparent => {
            let ps = split_chars(param, ',', None);
            if ps.len() >= 2 {
                if let Ok(image) = parse_address_chars(ps[0].as_slice()) {
                    return Command::ImageTransparent { image, transparent: read_flag(ps[1].as_slice()) };
                }
            }
            unknown_command(input)
        },
        Verb::ImageStretch => {
            let ps = split_chars(param, ',', None);
            if ps.len() >= 2 {
                if let Ok(image) = parse_address_chars(ps[0].as_slice()) {
                    return Command::ImageStretch { image, stretch: read_flag(ps[1].as_slice()) };
                }
            }
            unknown_command(input)
        },
        Verb::TimerSetInterval => {
            let ps = split_chars(param, ',', None);
            if ps.len() >= 2 {
                if let Ok(timer) = parse_address_chars(ps[0].as_slice()) {
                    if let Ok(interval) = parse_i32(ps[1].as_slice()) {
                        return Command::TimerSetInterval { timer, interval };
                    }
                }
            }
            unknown_command(input)
        },
        Verb::CreateTableEntry => {
            let ps = split_chars(param, ',', Some(3));
            if ps.len() >= 3 {
                Command::CreateTableEntry {
                    description: string_from_chars(ps[0].as_slice()),
                    address: string_from_chars(ps[1].as_slice()),
                    type_: string_from_chars(ps[2].as_slice()),
                }
            } else {
                unknown_command(input)
            }
        },
        Verb::ChangeRegister => {
            let ps = split_chars(param, ',', Some(3));
            if ps.len() >= 3 {
                if let Ok(address) = parse_address_chars(ps[0].as_slice()) {
                    return Command::ChangeRegister {
                        address,
                        reg: string_from_chars(ps[1].as_slice()),
                        value: string_from_chars(ps[2].as_slice()),
                    };
                }
            }
            unknown_command(input)
        },
        Verb::InjectDll => {
            let ps = split_chars(param, ',', Some(2));
            if ps.len() >= 1 {
                let function = if ps.len() > 1 {
                    string_from_chars(ps[1].as_slice())
                } else {
                    String::new()
                };
                Command::InjectDll { path: string_from_chars(ps[0].as_slice()), function }
            } else {
                unknown_command(input)
            }
        },
        Verb::GetAddressFromPointer => {
            let ps = split_chars(param, ',', None);
            if ps.len() >= 1 {
                if let Ok(base) = parse_address_chars(ps[0].as_slice()) {
                    let offsets = read_offsets(&ps);
                    return Command::GetAddressFromPointer { base, offsets };
                }
            }
            unknown_command(input)
        },
        Verb::SetBreakpoint => {
            let ps = split_chars(param, ',', Some(3));
            if ps.len() >= 3 {
                if let Ok(address) = parse_address_chars(ps[0].as_slice()) {
                    if let (Ok(size), Ok(trigger)) = (parse_i32(ps[1].as_slice()), parse_i32(ps[2].as_slice())) {
                        return Command::SetBreakpoint { address, size, trigger };
                    }
                }
            }
            unknown_command(input)
        },
        Verb::ShowMessage => Command::ShowMessage(string_from_chars(param)),
        Verb::Disassemble => match parse_address_chars(param) {
            Ok(address) => Command::Disassemble { address },
            Err(_) => unknown_command(input),
        },
        Verb::AutoAssemble => Command::AutoAssemble { script: string_from_chars(param) },
        Verb::CreateForm => Command::CreateForm,
        Verb::CreatePanel => match parse_address_chars(param) {
            Ok(owner) => Command::CreatePanel { owner },
            Err(_) => unknown_command(input),
        },
        Verb::CreateButton => match parse_address_chars(param) {
            Ok(owner) => Command::CreateButton { owner },
            Err(_) => unknown_command(input),
        },
        Verb::CreateLabel => match parse_address_chars(param) {
            Ok(owner) => Command::CreateLabel { owner },
            Err(_) => unknown_command(input),
        },
        Verb::CreateEdit => match parse_address_chars(param) {
            Ok(owner) => Command::CreateEdit { owner },
            Err(_) => unknown_command(input),
        },
        Verb::CreateImage => match parse_address_chars(param) {
            Ok(owner) => Command::CreateImage { owner },
            Err(_) => unknown_command(input),
        },
        Verb::CreateMemo => match parse_address_chars(param) {
            Ok(owner) => Command::CreateMemo { owner },
            Err(_) => unknown_command(input),
        },
        Verb::CreateGroupBox => match parse_address_chars(param) {
            Ok(owner) => Command::CreateGroupBox { owner },
            Err(_) => unknown_command(input),
        },
        Verb::CreateTimer => match parse_address_chars(param) {
            Ok(owner) => Command::CreateTimer { owner },
            Err(_) => unknown_command(input),
        },
        Verb::GetCaption => match parse_address_chars(param) {
            Ok(control) => Command::GetCaption { control },
            Err(_) => unknown_command(input),
        },
        Verb::GetPosition => match parse_address_chars(param) {
            Ok(control) => Command::GetPosition { control },
            Err(_) => unknown_command(input),
        },
        Verb::GetSize => match parse_address_chars(param) {
            Ok(control) => Command::GetSize { control },
            Err(_) => unknown_command(input),
        },
        Verb::DestroyObject => match parse_address_chars(param) {
            Ok(object) => Command::DestroyObject { object },
            Err(_) => unknown_command(input),
        },
        Verb::FormCenterScreen => match parse_address_chars(param) {
            Ok(form) => Command::FormCenterScreen { form },
            Err(_) => unknown_command(input),
        },
        Verb::FormHide => match parse_address_chars(param) {
            Ok(form) => Command::FormHide { form },
            Err(_) => unknown_command(input),
        },
        Verb::FormShow => match parse_address_chars(param) {
            Ok(form) => Command::FormShow { form },
            Err(_) => unknown_command(input),
        },
        Verb::GetTableEntry => match parse_i32(param) {
            Ok(index) => Command::GetTableEntry { index },
            Err(_) => unknown_command(input),
        },
        Verb::SetEntryDescription => {
            let ps = split_chars(param, ',', Some(2));
            if ps.len() >= 2 {
                if let Ok(index) = parse_i32(ps[0].as_slice()) {
                    return Command::SetEntryDescription { index, description: string_from_chars(ps[1].as_slice()) };
                }
            }
            unknown_command(input)
        },
        Verb::GetEntryDescription => match parse_i32(param) {
            Ok(index) => Command::GetEntryDescription { index },
            Err(_) => unknown_command(input),
        },
        Verb::SetEntryAddress => {
            let ps = split_chars(param, ',', Some(2));
            if ps.len() >= 2 {
                if let Ok(index) = parse_i32(ps[0].as_slice()) {
                    return Command::SetEntryAddress { index, address: string_from_chars(ps[1].as_slice()) };
                }
            }
            unknown_command(input)
        },
        Verb::GetEntryAddress => match parse_i32(param) {
            Ok(index) => Command::GetEntryAddress { index },
            Err(_) => unknown_command(input),
        },
        Verb::SetEntryType => {
            let ps = split_chars(param, ',', Some(2));
            if ps.len() >= 2 {
                if let Ok(index) = parse_i32(ps[0].as_slice()) {
                    return Command::SetEntryType { index, type_: string_from_chars(ps[1].as_slice()) };
                }
            }
            unknown_command(input)
        },
        Verb::GetEntryType => match parse_i32(param) {
            Ok(index) => Command::GetEntryType { index },
            Err(_) => unknown_command(input),
        },
        Verb::SetEntryValue => {
            let ps = split_chars(param, ',', Some(2));
            if ps.len() >= 2 {
                if let Ok(index) = parse_i32(ps[0].as_slice()) {
                    return Command::SetEntryValue { index, value: string_from_chars(ps[1].as_slice()) };
                }
            }
            unknown_command(input)
        },
        Verb::GetEntryValue => match parse_i32(param) {
            Ok(index) => Command::GetEntryValue { index },
            Err(_) => unknown_command(input),
        },
        Verb::SetEntryScript => {
            let ps = split_chars(param, ',', Some(2));
            if ps.len() >= 2 {
                if let Ok(index) = parse_i32(ps[0].as_slice()) {
                    return Command::SetEntryScript { index, script: string_from_chars(ps[1].as_slice()) };
                }
            }
            unknown_command(input)
        },
        Verb::GetEntryScript => match parse_i32(param) {
            Ok(index) => Command::GetEntryScript { index },
            Err(_) => unknown_command(input),
        },
        Verb::FreezeEntry => match parse_i32(param) {
            Ok(index) => Command::FreezeEntry { index },
            Err(_) => unknown_command(input),
        },
        Verb::UnfreezeEntry => match parse_i32(param) {
            Ok(index) => Command::UnfreezeEntry { index },
            Err(_) => unknown_command(input),
        },
        Verb::DeleteEntry => match parse_i32(param) {
            Ok(index) => Command::DeleteEntry { index },
            Err(_) => unknown_command(input),
        },
        Verb::ProcessList => Command::ProcessList,
        Verb::OpenProcess => match parse_u32(param) {
            Ok(process_id) => Command::OpenProcess { process_id },
            Err(_) => unknown_command(input),
        },
        Verb::GetProcessId => Command::GetProcessId { process_name: string_from_chars(param) },
        Verb::PauseProcess => Command::PauseProcess,
        Verb::UnpauseProcess => Command::UnpauseProcess,
        Verb::DebugProcess => match parse_u32(param) {
            Ok(process_id) => Command::DebugProcess { process_id },
            Err(_) => unknown_command(input),
        },
        Verb::Speedhack => if is_float_text(param) {
            Command::Speedhack { speed: string_from_chars(param) }
        } else {
            unknown_command(input)
        },
        Verb::AddressToName => match parse_address_chars(param) {
            Ok(address) => Command::AddressToName { address },
            Err(_) => unknown_command(input),
        },
        Verb::NameToAddress => Command::NameToAddress { name: string_from_chars(param) },
        Verb::PreviousOpcode => match parse_address_chars(param) {
            Ok(address) => Command::PreviousOpcode { address },
            Err(_) => unknown_command(input),
        },
        Verb::NextOpcode => match parse_address_chars(param) {
            Ok(address) => Command::NextOpcode { address },
            Err(_) => unknown_command(input),
        },
        Verb::RemoveBreakpoint => match parse_address_chars(param) {
            Ok(address) => Command::RemoveBreakpoint { address },
            Err(_) => unknown_command(input),
        },
        Verb::ContinueFromBreakpoint => match parse_i32(param) {
            Ok(option) => Command::ContinueFromBreakpoint { option },
            Err(_) => unknown_command(input),
        },
    }
}

impl Command {
    /// Reads a command line `NAME:parameters` (see `describes`).
    pub fn from_string(input: &str) -> (res: Command)
        ensures
            describes(res, input@),
    {
        let chars = to_chars(input);
        Command::from_chars(chars.as_slice())
    }

    /// Reads a command line given as its characters (see `describes`).
    pub fn from_chars(chars: &[char]) -> (res: Command)
        ensures
            describes(res, chars@),
    {
        let parts = split_chars(chars, ':', Some(2));
        let param: Vec<char> = if parts.len() > 1 {
            parts[1].clone()
        } else {
            Vec::new()
        };
        match lookup_verb(parts[0].as_slice()) {
            None => unknown_command(chars),
            Some(verb) => build_command(verb, param.as_slice(), chars),
        }
    }
}


/// Protocol law: in a line `NAME:parameters` whose name holds no `:`, the
/// name is what comes before the first `:` and the parameters are all that
/// follows it, unchanged (further `:`s included); a line without `:` is a
/// name with empty parameters.
pub proof fn lemma_command_parts(name: Seq<char>, param: Seq<char>)
    requires
        forall|i: int| 0 <= i < name.len() ==> name[i] != ':',
    ensures
        command_name(name + seq![':'] + param) == name,
        command_param(name + seq![':'] + param) == param,
        command_name(name) == name,
        command_param(name) == Seq::<char>::empty(),
{
    crate::text::lemma_split_two(name, ':', param);
    crate::text::lemma_split_without_sep(name, ':', 2);
}

/// Protocol law: the address that the reply to a form's creation prints
/// (`0x` and capital hexadecimal digits), sent back in `CREATE_PANEL`,
/// names that same form as the panel's owner.
pub proof fn lemma_panel_on_printed_form(form: usize, c: Command)
    requires
        describes(c, "CREATE_PANEL:0x"@ + hex_digits(form as nat)),
    ensures
        c == (Command::CreatePanel { owner: form }),
{
    reveal_strlit("CREATE_PANEL:0x");
    reveal_strlit("CREATE_PANEL");
    reveal_strlit("SHOW_MESSAGE");
    reveal_strlit("READ_MEMORY");
    reveal_strlit("WRITE_MEMORY");
    reveal_strlit("ASSEMBLE");
    reveal_strlit("DISASSEMBLE");
    reveal_strlit("AUTO_ASSEMBLE");
    reveal_strlit("CREATE_FORM");
    let name = "CREATE_PANEL"@;
    let param = seq!['0', 'x'] + hex_digits(form as nat);
    assert("CREATE_PANEL:0x"@ + hex_digits(form as nat) =~= name + seq![':'] + param);
    lemma_command_parts(name, param);
    lemma_hex_address_roundtrip(form);
    assert(name != "SHOW_MESSAGE"@);
    assert(name != "READ_MEMORY"@);
    assert(name != "WRITE_MEMORY"@);
    assert(name != "ASSEMBLE"@);
    assert(name != "DISASSEMBLE"@);
    assert(name != "AUTO_ASSEMBLE"@);
    assert(name[8] != "CREATE_FORM"@[8]);
    assert(verb_of(name) == Some(Verb::CreatePanel));
}

/// Protocol law: each command's name reads back as that command (so no two
/// commands share a name), and no name holds the `:` that ends it.
#[verifier::spinoff_prover]
#[verifier::rlimit(100)]
pub proof fn lemma_verb_names(v: Verb)
    ensures
        verb_of(v.name_spec()) == Some(v),
        forall|i: int| 0 <= i < v.name_spec().len() ==> #[trigger] v.name_spec()[i] != ':',
{
    reveal_strlit("SHOW_MESSAGE");
    reveal_strlit("READ_MEMORY");
    reveal_strlit("WRITE_MEMORY");
    reveal_strlit("ASSEMBLE");
    reveal_strlit("DISASSEMBLE");
    reveal_strlit("AUTO_ASSEMBLE");
    reveal_strlit("CREATE_FORM");
    reveal_strlit("CREATE_PANEL");
    reveal_strlit("CREATE_BUTTON");
    reveal_strlit("CREATE_LABEL");
    reveal_strlit("CREATE_EDIT");
    reveal_strlit("CREATE_IMAGE");
    reveal_strlit("CREATE_MEMO");
    reveal_strlit("CREATE_GROUP_BOX");
    reveal_strlit("CREATE_TIMER");
    reveal_strlit("SET_CAPTION");
    reveal_strlit("GET_CAPTION");
    reveal_strlit("SET_POSITION");
    reveal_strlit("GET_POSITION");
    reveal_strlit("SET_SIZE");
    reveal_strlit("GET_SIZE");
    reveal_strlit("DESTROY_OBJECT");
    reveal_strlit("FORM_CENTER_SCREEN");
    reveal_strlit("FORM_HIDE");
    reveal_strlit("FORM_SHOW");
    reveal_strlit("IMAGE_LOAD_IMAGE_FROM_FILE");
    reveal_strlit("IMAGE_TRANSPARENT");
    reveal_strlit("IMAGE_STRETCH");
    reveal_strlit("TIMER_SET_INTERVAL");
    reveal_strlit("CREATE_TABLE_ENTRY");
    reveal_strlit("GET_TABLE_ENTRY");
    reveal_strlit("SET_ENTRY_DESCRIPTION");
    reveal_strlit("GET_ENTRY_DESCRIPTION");
    reveal_strlit("SET_ENTRY_ADDRESS");
    reveal_strlit("GET_ENTRY_ADDRESS");
    reveal_strlit("SET_ENTRY_TYPE");
    reveal_strlit("GET_ENTRY_TYPE");
    reveal_strlit("SET_ENTRY_VALUE");
    reveal_strlit("GET_ENTRY_VALUE");
    reveal_strlit("SET_ENTRY_SCRIPT");
    reveal_strlit("GET_ENTRY_SCRIPT");
    reveal_strlit("FREEZE_ENTRY");
    reveal_strlit("UNFREEZE_ENTRY");
    reveal_strlit("DELETE_ENTRY");
    reveal_strlit("PROCESS_LIST");
    reveal_strlit("OPEN_PROCESS");
    reveal_strlit("GET_PROCESS_ID");
    reveal_strlit("PAUSE_PROCESS");
    reveal_strlit("UNPAUSE_PROCESS");
    reveal_strlit("DEBUG_PROCESS");
    reveal_strlit("CHANGE_REGISTER");
    reveal_strlit("INJECT_DLL");
    reveal_strlit("SPEEDHACK");
    reveal_strlit("ADDRESS_TO_NAME");
    reveal_strlit("NAME_TO_ADDRESS");
    reveal_strlit("GET_ADDRESS_FROM_POINTER");
    reveal_strlit("PREVIOUS_OPCODE");
    reveal_strlit("NEXT_OPCODE");
    reveal_strlit("SET_BREAKPOINT");
    reveal_strlit("REMOVE_BREAKPOINT");
    reveal_strlit("CONTINUE_FROM_BREAKPOINT");
    // The characters that tell each name from every other.
    assert("SHOW_MESSAGE"@[0] == 'S' && "SHOW_MESSAGE"@[1] == 'H');
    assert("READ_MEMORY"@[0] == 'R' && "READ_MEMORY"@[2] == 'A');
    assert("WRITE_MEMORY"@[0] == 'W');
    assert("ASSEMBLE"@[0] == 'A' && "ASSEMBLE"@[1] == 'S');
    assert("DISASSEMBLE"@[0] == 'D' && "DISASSEMBLE"@[1] == 'I');
    assert("AUTO_ASSEMBLE"@[0] == 'A' && "AUTO_ASSEMBLE"@[1] == 'U');
    assert("CREATE_FORM"@[0] == 'C' && "CREATE_FORM"@[1] == 'R' && "CREATE_FORM"@[7] == 'F');
    assert("CREATE_PANEL"@[0] == 'C' && "CREATE_PANEL"@[1] == 'R' && "CREATE_PANEL"@[7] == 'P');
    assert("CREATE_BUTTON"@[0] == 'C' && "CREATE_BUTTON"@[1] == 'R' && "CREATE_BUTTON"@[7] == 'B');
    assert("CREATE_LABEL"@[0] == 'C' && "CREATE_LABEL"@[1] == 'R' && "CREATE_LABEL"@[7] == 'L');
    assert("CREATE_EDIT"@[0] == 'C' && "CREATE_EDIT"@[1] == 'R' && "CREATE_EDIT"@[7] == 'E');
    assert("CREATE_IMAGE"@[0] == 'C' && "CREATE_IMAGE"@[1] == 'R' && "CREATE_IMAGE"@[7] == 'I');
    assert("CREATE_MEMO"@[0] == 'C' && "CREATE_MEMO"@[1] == 'R' && "CREATE_MEMO"@[7] == 'M');
    assert("CREATE_GROUP_BOX"@[0] == 'C' && "CREATE_GROUP_BOX"@[1] == 'R' && "CREATE_GROUP_BOX"@[7] == 'G');
    assert("CREATE_TIMER"@[0] == 'C' && "CREATE_TIMER"@[1] == 'R' && "CREATE_TIMER"@[7] == 'T' && "CREATE_TIMER"@[8] == 'I');
    assert("SET_CAPTION"@[0] == 'S' && "SET_CAPTION"@[1] == 'E' && "SET_CAPTION"@[4] == 'C');
    assert("GET_CAPTION"@[0] == 'G' && "GET_CAPTION"@[4] == 'C');
    assert("SET_POSITION"@[0] == 'S' && "SET_POSITION"@[1] == 'E' && "SET_POSITION"@[4] == 'P');
    assert("GET_POSITION"@[0] == 'G' && "GET_POSITION"@[4] == 'P' && "GET_POSITION"@[5] == 'O');
    assert("SET_SIZE"@[0] == 'S' && "SET_SIZE"@[1] == 'E' && "SET_SIZE"@[4] == 'S');
    assert("GET_SIZE"@[0] == 'G' && "GET_SIZE"@[4] == 'S');
    assert("DESTROY_OBJECT"@[0] == 'D' && "DESTROY_OBJECT"@[1] == 'E' && "DESTROY_OBJECT"@[2] == 'S');
    assert("FORM_CENTER_SCREEN"@[0] == 'F' && "FORM_CENTER_SCREEN"@[1] == 'O' && "FORM_CENTER_SCREEN"@[5] == 'C');
    assert("FORM_HIDE"@[0] == 'F' && "FORM_HIDE"@[1] == 'O' && "FORM_HIDE"@[5] == 'H');
    assert("FORM_SHOW"@[0] == 'F' && "FORM_SHOW"@[1] == 'O' && "FORM_SHOW"@[5] == 'S');
    assert("IMAGE_LOAD_IMAGE_FROM_FILE"@[0] == 'I' && "IMAGE_LOAD_IMAGE_FROM_FILE"@[1] == 'M' && "IMAGE_LOAD_IMAGE_FROM_FILE"@[6] == 'L');
    assert("IMAGE_TRANSPARENT"@[0] == 'I' && "IMAGE_TRANSPARENT"@[1] == 'M' && "IMAGE_TRANSPARENT"@[6] == 'T');
    assert("IMAGE_STRETCH"@[0] == 'I' && "IMAGE_STRETCH"@[1] == 'M' && "IMAGE_STRETCH"@[6] == 'S');
    assert("TIMER_SET_INTERVAL"@[0] == 'T');
    assert("CREATE_TABLE_ENTRY"@[0] == 'C' && "CREATE_TABLE_ENTRY"@[1] == 'R' && "CREATE_TABLE_ENTRY"@[7] == 'T' && "CREATE_TABLE_ENTRY"@[8] == 'A');
    assert("GET_TABLE_ENTRY"@[0] == 'G' && "GET_TABLE_ENTRY"@[4] == 'T');
    assert("SET_ENTRY_DESCRIPTION"@[0] == 'S' && "SET_ENTRY_DESCRIPTION"@[1] == 'E' && "SET_ENTRY_DESCRIPTION"@[4] == 'E' && "SET_ENTRY_DESCRIPTION"@[10] == 'D');
    assert("GET_ENTRY_DESCRIPTION"@[0] == 'G' && "GET_ENTRY_DESCRIPTION"@[4] == 'E' && "GET_ENTRY_DESCRIPTION"@[10] == 'D');
    assert("SET_ENTRY_ADDRESS"@[0] == 'S' && "SET_ENTRY_ADDRESS"@[1] == 'E' && "SET_ENTRY_ADDRESS"@[4] == 'E' && "SET_ENTRY_ADDRESS"@[10] == 'A');
    assert("GET_ENTRY_ADDRESS"@[0] == 'G' && "GET_ENTRY_ADDRESS"@[4] == 'E' && "GET_ENTRY_ADDRESS"@[10] == 'A');
    assert("SET_ENTRY_TYPE"@[0] == 'S' && "SET_ENTRY_TYPE"@[1] == 'E' && "SET_ENTRY_TYPE"@[4] == 'E' && "SET_ENTRY_TYPE"@[10] == 'T');
    assert("GET_ENTRY_TYPE"@[0] == 'G' && "GET_ENTRY_TYPE"@[4] == 'E' && "GET_ENTRY_TYPE"@[10] == 'T');
    assert("SET_ENTRY_VALUE"@[0] == 'S' && "SET_ENTRY_VALUE"@[1] == 'E' && "SET_ENTRY_VALUE"@[4] == 'E' && "SET_ENTRY_VALUE"@[10] == 'V');
    assert("GET_ENTRY_VALUE"@[0] == 'G' && "GET_ENTRY_VALUE"@[4] == 'E' && "GET_ENTRY_VALUE"@[10] == 'V');
    assert("SET_ENTRY_SCRIPT"@[0] == 'S' && "SET_ENTRY_SCRIPT"@[1] == 'E' && "SET_ENTRY_SCRIPT"@[4] == 'E' && "SET_ENTRY_SCRIPT"@[10] == 'S');
    assert("GET_ENTRY_SCRIPT"@[0] == 'G' && "GET_ENTRY_SCRIPT"@[4] == 'E' && "GET_ENTRY_SCRIPT"@[10] == 'S');
    assert("FREEZE_ENTRY"@[0] == 'F' && "FREEZE_ENTRY"@[1] == 'R');
    assert("UNFREEZE_ENTRY"@[0] == 'U' && "UNFREEZE_ENTRY"@[2] == 'F');
    assert("DELETE_ENTRY"@[0] == 'D' && "DELETE_ENTRY"@[1] == 'E' && "DELETE_ENTRY"@[2] == 'L');
    assert("PROCESS_LIST"@[0] == 'P' && "PROCESS_LIST"@[1] == 'R' && "PROCESS_LIST"@[2] == 'O');
    assert("OPEN_PROCESS"@[0] == 'O');
    assert("GET_PROCESS_ID"@[0] == 'G' && "GET_PROCESS_ID"@[4] == 'P' && "GET_PROCESS_ID"@[5] == 'R');
    assert("PAUSE_PROCESS"@[0] == 'P' && "PAUSE_PROCESS"@[1] == 'A');
    assert("UNPAUSE_PROCESS"@[0] == 'U' && "UNPAUSE_PROCESS"@[2] == 'P');
    assert("DEBUG_PROCESS"@[0] == 'D' && "DEBUG_PROCESS"@[1] == 'E' && "DEBUG_PROCESS"@[2] == 'B');
    assert("CHANGE_REGISTER"@[0] == 'C' && "CHANGE_REGISTER"@[1] == 'H');
    assert("INJECT_DLL"@[0] == 'I' && "INJECT_DLL"@[1] == 'N');
    assert("SPEEDHACK"@[0] == 'S' && "SPEEDHACK"@[1] == 'P');
    assert("ADDRESS_TO_NAME"@[0] == 'A' && "ADDRESS_TO_NAME"@[1] == 'D');
    assert("NAME_TO_ADDRESS"@[0] == 'N' && "NAME_TO_ADDRESS"@[1] == 'A');
    assert("GET_ADDRESS_FROM_POINTER"@[0] == 'G' && "GET_ADDRESS_FROM_POINTER"@[4] == 'A');
    assert("PREVIOUS_OPCODE"@[0] == 'P' && "PREVIOUS_OPCODE"@[1] == 'R' && "PREVIOUS_OPCODE"@[2] == 'E');
    assert("NEXT_OPCODE"@[0] == 'N' && "NEXT_OPCODE"@[1] == 'E');
    assert("SET_BREAKPOINT"@[0] == 'S' && "SET_BREAKPOINT"@[1] == 'E' && "SET_BREAKPOINT"@[4] == 'B');
    assert("REMOVE_BREAKPOINT"@[0] == 'R' && "REMOVE_BREAKPOINT"@[2] == 'M');
    assert("CONTINUE_FROM_BREAKPOINT"@[0] == 'C' && "CONTINUE_FROM_BREAKPOINT"@[1] == 'O');
    match v {
        Verb::ShowMessage => assert(verb_of("SHOW_MESSAGE"@) == Some(Verb::ShowMessage)),
        Verb::ReadMemory => assert(verb_of("READ_MEMORY"@) == Some(Verb::ReadMemory)),
        Verb::WriteMemory => assert(verb_of("WRITE_MEMORY"@) == Some(Verb::WriteMemory)),
        Verb::Assemble => assert(verb_of("ASSEMBLE"@) == Some(Verb::Assemble)),
        Verb::Disassemble => assert(verb_of("DISASSEMBLE"@) == Some(Verb::Disassemble)),
        Verb::AutoAssemble => assert(verb_of("AUTO_ASSEMBLE"@) == Some(Verb::AutoAssemble)),
        Verb::CreateForm => assert(verb_of("CREATE_FORM"@) == Some(Verb::CreateForm)),
        Verb::CreatePanel => assert(verb_of("CREATE_PANEL"@) == Some(Verb::CreatePanel)),
        Verb::CreateButton => assert(verb_of("CREATE_BUTTON"@) == Some(Verb::CreateButton)),
        Verb::CreateLabel => assert(verb_of("CREATE_LABEL"@) == Some(Verb::CreateLabel)),
        Verb::CreateEdit => assert(verb_of("CREATE_EDIT"@) == Some(Verb::CreateEdit)),
        Verb::CreateImage => assert(verb_of("CREATE_IMAGE"@) == Some(Verb::CreateImage)),
        Verb::CreateMemo => assert(verb_of("CREATE_MEMO"@) == Some(Verb::CreateMemo)),
        Verb::CreateGroupBox => assert(verb_of("CREATE_GROUP_BOX"@) == Some(Verb::CreateGroupBox)),
        Verb::CreateTimer => assert(verb_of("CREATE_TIMER"@) == Some(Verb::CreateTimer)),
        Verb::SetCaption => assert(verb_of("SET_CAPTION"@) == Some(Verb::SetCaption)),
        Verb::GetCaption => assert(verb_of("GET_CAPTION"@) == Some(Verb::GetCaption)),
        Verb::SetPosition => assert(verb_of("SET_POSITION"@) == Some(Verb::SetPosition)),
        Verb::GetPosition => assert(verb_of("GET_POSITION"@) == Some(Verb::GetPosition)),
        Verb::SetSize => assert(verb_of("SET_SIZE"@) == Some(Verb::SetSize)),
        Verb::GetSize => assert(verb_of("GET_SIZE"@) == Some(Verb::GetSize)),
        Verb::DestroyObject => assert(verb_of("DESTROY_OBJECT"@) == Some(Verb::DestroyObject)),
        Verb::FormCenterScreen => assert(verb_of("FORM_CENTER_SCREEN"@) == Some(Verb::FormCenterScreen)),
        Verb::FormHide => assert(verb_of("FORM_HIDE"@) == Some(Verb::FormHide)),
        Verb::FormShow => assert(verb_of("FORM_SHOW"@) == Some(Verb::FormShow)),
        Verb::ImageLoadFromFile => assert(verb_of("IMAGE_LOAD_IMAGE_FROM_FILE"@) == Some(Verb::ImageLoadFromFile)),
        Verb::ImageTransparent => assert(verb_of("IMAGE_TRANSPARENT"@) == Some(Verb::ImageTransparent)),
        Verb::ImageStretch => assert(verb_of("IMAGE_STRETCH"@) == Some(Verb::ImageStretch)),
        Verb::TimerSetInterval => assert(verb_of("TIMER_SET_INTERVAL"@) == Some(Verb::TimerSetInterval)),
        Verb::CreateTableEntry => assert(verb_of("CREATE_TABLE_ENTRY"@) == Some(Verb::CreateTableEntry)),
        Verb::GetTableEntry => assert(verb_of("GET_TABLE_ENTRY"@) == Some(Verb::GetTableEntry)),
        Verb::SetEntryDescription => assert(verb_of("SET_ENTRY_DESCRIPTION"@) == Some(Verb::SetEntryDescription)),
        Verb::GetEntryDescription => assert(verb_of("GET_ENTRY_DESCRIPTION"@) == Some(Verb::GetEntryDescription)),
        Verb::SetEntryAddress => assert(verb_of("SET_ENTRY_ADDRESS"@) == Some(Verb::SetEntryAddress)),
        Verb::GetEntryAddress => assert(verb_of("GET_ENTRY_ADDRESS"@) == Some(Verb::GetEntryAddress)),
        Verb::SetEntryType => assert(verb_of("SET_ENTRY_TYPE"@) == Some(Verb::SetEntryType)),
        Verb::GetEntryType => assert(verb_of("GET_ENTRY_TYPE"@) == Some(Verb::GetEntryType)),
        Verb::SetEntryValue => assert(verb_of("SET_ENTRY_VALUE"@) == Some(Verb::SetEntryValue)),
        Verb::GetEntryValue => assert(verb_of("GET_ENTRY_VALUE"@) == Some(Verb::GetEntryValue)),
        Verb::SetEntryScript => assert(verb_of("SET_ENTRY_SCRIPT"@) == Some(Verb::SetEntryScript)),
        Verb::GetEntryScript => assert(verb_of("GET_ENTRY_SCRIPT"@) == Some(Verb::GetEntryScript)),
        Verb::FreezeEntry => assert(verb_of("FREEZE_ENTRY"@) == Some(Verb::FreezeEntry)),
        Verb::UnfreezeEntry => assert(verb_of("UNFREEZE_ENTRY"@) == Some(Verb::UnfreezeEntry)),
        Verb::DeleteEntry => assert(verb_of("DELETE_ENTRY"@) == Some(Verb::DeleteEntry)),
        Verb::ProcessList => assert(verb_of("PROCESS_LIST"@) == Some(Verb::ProcessList)),
        Verb::OpenProcess => assert(verb_of("OPEN_PROCESS"@) == Some(Verb::OpenProcess)),
        Verb::GetProcessId => assert(verb_of("GET_PROCESS_ID"@) == Some(Verb::GetProcessId)),
        Verb::PauseProcess => assert(verb_of("PAUSE_PROCESS"@) == Some(Verb::PauseProcess)),
        Verb::UnpauseProcess => assert(verb_of("UNPAUSE_PROCESS"@) == Some(Verb::UnpauseProcess)),
        Verb::DebugProcess => assert(verb_of("DEBUG_PROCESS"@) == Some(Verb::DebugProcess)),
        Verb::ChangeRegister => assert(verb_of("CHANGE_REGISTER"@) == Some(Verb::ChangeRegister)),
        Verb::InjectDll => assert(verb_of("INJECT_DLL"@) == Some(Verb::InjectDll)),
        Verb::Speedhack => assert(verb_of("SPEEDHACK"@) == Some(Verb::Speedhack)),
        Verb::AddressToName => assert(verb_of("ADDRESS_TO_NAME"@) == Some(Verb::AddressToName)),
        Verb::NameToAddress => assert(verb_of("NAME_TO_ADDRESS"@) == Some(Verb::NameToAddress)),
        Verb::GetAddressFromPointer => assert(verb_of("GET_ADDRESS_FROM_POINTER"@) == Some(Verb::GetAddressFromPointer)),
        Verb::PreviousOpcode => assert(verb_of("PREVIOUS_OPCODE"@) == Some(Verb::PreviousOpcode)),
        Verb::NextOpcode => assert(verb_of("NEXT_OPCODE"@) == Some(Verb::NextOpcode)),
        Verb::SetBreakpoint => assert(verb_of("SET_BREAKPOINT"@) == Some(Verb::SetBreakpoint)),
        Verb::RemoveBreakpoint => assert(verb_of("REMOVE_BREAKPOINT"@) == Some(Verb::RemoveBreakpoint)),
        Verb::ContinueFromBreakpoint => assert(verb_of("CONTINUE_FROM_BREAKPOINT"@) == Some(Verb::ContinueFromBreakpoint)),
    }
}

/// Protocol law: a line made of a command's name, `:` and any parameters
/// `p` reads as that command. A command with a text parameter takes `p`
/// unchanged; one with an address or a number takes the value that `p`
/// reads as, or the line is `Unknown` when `p` does not read; `SPEEDHACK`
/// takes `p` exactly when it is floating-point text; and a command with
/// several parameters is that command or `Unknown`.
#[verifier::spinoff_prover]
#[verifier::rlimit(100)]
pub proof fn lemma_named_lines(p: Seq<char>, c: Command)
    ensures
        describes(c, "SHOW_MESSAGE"@ + seq![':'] + p) ==> (c matches Command::ShowMessage(t) && t@ == p),
        describes(c, "READ_MEMORY"@ + seq![':'] + p) ==> (c matches Command::ReadMemory { .. } || c is Unknown),
        describes(c, "WRITE_MEMORY"@ + seq![':'] + p) ==> (c matches Command::WriteMemory { .. } || c is Unknown),
        describes(c, "ASSEMBLE"@ + seq![':'] + p) ==> (c matches Command::Assemble { .. } || c is Unknown),
        describes(c, "DISASSEMBLE"@ + seq![':'] + p) ==> ((parse_address_spec(p) matches Ok(n) ==> (c matches Command::Disassemble { address } && address as int == n)) && (parse_address_spec(p) is Err ==> c is Unknown)),
        describes(c, "AUTO_ASSEMBLE"@ + seq![':'] + p) ==> (c matches Command::AutoAssemble { script } && script@ == p),
        describes(c, "CREATE_FORM"@ + seq![':'] + p) ==> (c matches Command::CreateForm),
        describes(c, "CREATE_PANEL"@ + seq![':'] + p) ==> ((parse_address_spec(p) matches Ok(n) ==> (c matches Command::CreatePanel { owner } && owner as int == n)) && (parse_address_spec(p) is Err ==> c is Unknown)),
        describes(c, "CREATE_BUTTON"@ + seq![':'] + p) ==> ((parse_address_spec(p) matches Ok(n) ==> (c matches Command::CreateButton { owner } && owner as int == n)) && (parse_address_spec(p) is Err ==> c is Unknown)),
        describes(c, "CREATE_LABEL"@ + seq![':'] + p) ==> ((parse_address_spec(p) matches Ok(n) ==> (c matches Command::CreateLabel { owner } && owner as int == n)) && (parse_address_spec(p) is Err ==> c is Unknown)),
        describes(c, "CREATE_EDIT"@ + seq![':'] + p) ==> ((parse_address_spec(p) matches Ok(n) ==> (c matches Command::CreateEdit { owner } && owner as int == n)) && (parse_address_spec(p) is Err ==> c is Unknown)),
        describes(c, "CREATE_IMAGE"@ + seq![':'] + p) ==> ((parse_address_spec(p) matches Ok(n) ==> (c matches Command::CreateImage { owner } && owner as int == n)) && (parse_address_spec(p) is Err ==> c is Unknown)),
        describes(c, "CREATE_MEMO"@ + seq![':'] + p) ==> ((parse_address_spec(p) matches Ok(n) ==> (c matches Command::CreateMemo { owner } && owner as int == n)) && (parse_address_spec(p) is Err ==> c is Unknown)),
        describes(c, "CREATE_GROUP_BOX"@ + seq![':'] + p) ==> ((parse_address_spec(p) matches Ok(n) ==> (c matches Command::CreateGroupBox { owner } && owner as int == n)) && (parse_address_spec(p) is Err ==> c is Unknown)),
        describes(c, "CREATE_TIMER"@ + seq![':'] + p) ==> ((parse_address_spec(p) matches Ok(n) ==> (c matches Command::CreateTimer { owner } && owner as int == n)) && (parse_address_spec(p) is Err ==> c is Unknown)),
        describes(c, "SET_CAPTION"@ + seq![':'] + p) ==> (c matches Command::SetCaption { .. } || c is Unknown),
        describes(c, "GET_CAPTION"@ + seq![':'] + p) ==> ((parse_address_spec(p) matches Ok(n) ==> (c matches Command::GetCaption { control } && control as int == n)) && (parse_address_spec(p) is Err ==> c is Unknown)),
        describes(c, "SET_POSITION"@ + seq![':'] + p) ==> (c matches Command::SetPosition { .. } || c is Unknown),
        describes(c, "GET_POSITION"@ + seq![':'] + p) ==> ((parse_address_spec(p) matches Ok(n) ==> (c matches Command::GetPosition { control } && control as int == n)) && (parse_address_spec(p) is Err ==> c is Unknown)),
        describes(c, "SET_SIZE"@ + seq![':'] + p) ==> (c matches Command::SetSize { .. } || c is Unknown),
        describes(c, "GET_SIZE"@ + seq![':'] + p) ==> ((parse_address_spec(p) matches Ok(n) ==> (c matches Command::GetSize { control } && control as int == n)) && (parse_address_spec(p) is Err ==> c is Unknown)),
        describes(c, "DESTROY_OBJECT"@ + seq![':'] + p) ==> ((parse_address_spec(p) matches Ok(n) ==> (c matches Command::DestroyObject { object } && object as int == n)) && (parse_address_spec(p) is Err ==> c is Unknown)),
        describes(c, "FORM_CENTER_SCREEN"@ + seq![':'] + p) ==> ((parse_address_spec(p) matches Ok(n) ==> (c matches Command::FormCenterScreen { form } && form as int == n)) && (parse_address_spec(p) is Err ==> c is Unknown)),
        describes(c, "FORM_HIDE"@ + seq![':'] + p) ==> ((parse_address_spec(p) matches Ok(n) ==> (c matches Command::FormHide { form } && form as int == n)) && (parse_address_spec(p) is Err ==> c is Unknown)),
        describes(c, "FORM_SHOW"@ + seq![':'] + p) ==> ((parse_address_spec(p) matches Ok(n) ==> (c matches Command::FormShow { form } && form as int == n)) && (parse_address_spec(p) is Err ==> c is Unknown)),
        describes(c, "IMAGE_LOAD_IMAGE_FROM_FILE"@ + seq![':'] + p) ==> (c matches Command::ImageLoadFromFile { .. } || c is Unknown),
        describes(c, "IMAGE_TRANSPARENT"@ + seq![':'] + p) ==> (c matches Command::ImageTransparent { .. } || c is Unknown),
        describes(c, "IMAGE_STRETCH"@ + seq![':'] + p) ==> (c matches Command::ImageStretch { .. } || c is Unknown),
        describes(c, "TIMER_SET_INTERVAL"@ + seq![':'] + p) ==> (c matches Command::TimerSetInterval { .. } || c is Unknown),
        describes(c, "CREATE_TABLE_ENTRY"@ + seq![':'] + p) ==> (c matches Command::CreateTableEntry { .. } || c is Unknown),
        describes(c, "GET_TABLE_ENTRY"@ + seq![':'] + p) ==> ((parse_i32_spec(p) matches Ok(n) ==> (c matches Command::GetTableEntry { index } && index as int == n)) && (parse_i32_spec(p) is Err ==> c is Unknown)),
        describes(c, "SET_ENTRY_DESCRIPTION"@ + seq![':'] + p) ==> (c matches Command::SetEntryDescription { .. } || c is Unknown),
        describes(c, "GET_ENTRY_DESCRIPTION"@ + seq![':'] + p) ==> ((parse_i32_spec(p) matches Ok(n) ==> (c matches Command::GetEntryDescription { index } && index as int == n)) && (parse_i32_spec(p) is Err ==> c is Unknown)),
        describes(c, "SET_ENTRY_ADDRESS"@ + seq![':'] + p) ==> (c matches Command::SetEntryAddress { .. } || c is Unknown),
        describes(c, "GET_ENTRY_ADDRESS"@ + seq![':'] + p) ==> ((parse_i32_spec(p) matches Ok(n) ==> (c matches Command::GetEntryAddress { index } && index as int == n)) && (parse_i32_spec(p) is Err ==> c is Unknown)),
        describes(c, "SET_ENTRY_TYPE"@ + seq![':'] + p) ==> (c matches Command::SetEntryType { .. } || c is Unknown),
        describes(c, "GET_ENTRY_TYPE"@ + seq![':'] + p) ==> ((parse_i32_spec(p) matches Ok(n) ==> (c matches Command::GetEntryType { index } && index as int == n)) && (parse_i32_spec(p) is Err ==> c is Unknown)),
        describes(c, "SET_ENTRY_VALUE"@ + seq![':'] + p) ==> (c matches Command::SetEntryValue { .. } || c is Unknown),
        describes(c, "GET_ENTRY_VALUE"@ + seq![':'] + p) ==> ((parse_i32_spec(p) matches Ok(n) ==> (c matches Command::GetEntryValue { index } && index as int == n)) && (parse_i32_spec(p) is Err ==> c is Unknown)),
        describes(c, "SET_ENTRY_SCRIPT"@ + seq![':'] + p) ==> (c matches Command::SetEntryScript { .. } || c is Unknown),
        describes(c, "GET_ENTRY_SCRIPT"@ + seq![':'] + p) ==> ((parse_i32_spec(p) matches Ok(n) ==> (c matches Command::GetEntryScript { index } && index as int == n)) && (parse_i32_spec(p) is Err ==> c is Unknown)),
        describes(c, "FREEZE_ENTRY"@ + seq![':'] + p) ==> ((parse_i32_spec(p) matches Ok(n) ==> (c matches Command::FreezeEntry { index } && index as int == n)) && (parse_i32_spec(p) is Err ==> c is Unknown)),
        describes(c, "UNFREEZE_ENTRY"@ + seq![':'] + p) ==> ((parse_i32_spec(p) matches Ok(n) ==> (c matches Command::UnfreezeEntry { index } && index as int == n)) && (parse_i32_spec(p) is Err ==> c is Unknown)),
        describes(c, "DELETE_ENTRY"@ + seq![':'] + p) ==> ((parse_i32_spec(p) matches Ok(n) ==> (c matches Command::DeleteEntry { index } && index as int == n)) && (parse_i32_spec(p) is Err ==> c is Unknown)),
        describes(c, "PROCESS_LIST"@ + seq![':'] + p) ==> (c matches Command::ProcessList),
        describes(c, "OPEN_PROCESS"@ + seq![':'] + p) ==> ((parse_u32_spec(p) matches Ok(n) ==> (c matches Command::OpenProcess { process_id } && process_id as int == n)) && (parse_u32_spec(p) is Err ==> c is Unknown)),
        describes(c, "GET_PROCESS_ID"@ + seq![':'] + p) ==> (c matches Command::GetProcessId { process_name } && process_name@ == p),
        describes(c, "PAUSE_PROCESS"@ + seq![':'] + p) ==> (c matches Command::PauseProcess),
        describes(c, "UNPAUSE_PROCESS"@ + seq![':'] + p) ==> (c matches Command::UnpauseProcess),
        describes(c, "DEBUG_PROCESS"@ + seq![':'] + p) ==> ((parse_u32_spec(p) matches Ok(n) ==> (c matches Command::DebugProcess { process_id } && process_id as int == n)) && (parse_u32_spec(p) is Err ==> c is Unknown)),
        describes(c, "CHANGE_REGISTER"@ + seq![':'] + p) ==> (c matches Command::ChangeRegister { .. } || c is Unknown),
        describes(c, "INJECT_DLL"@ + seq![':'] + p) ==> (c matches Command::InjectDll { .. } || c is Unknown),
        describes(c, "SPEEDHACK"@ + seq![':'] + p) ==> ((float_text_spec(p) ==> (c matches Command::Speedhack { speed } && speed@ == p)) && (!float_text_spec(p) ==> c is Unknown)),
        describes(c, "ADDRESS_TO_NAME"@ + seq![':'] + p) ==> ((parse_address_spec(p) matches Ok(n) ==> (c matches Command::AddressToName { address } && address as int == n)) && (parse_address_spec(p) is Err ==> c is Unknown)),
        describes(c, "NAME_TO_ADDRESS"@ + seq![':'] + p) ==> (c matches Command::NameToAddress { name } && name@ == p),
        describes(c, "GET_ADDRESS_FROM_POINTER"@ + seq![':'] + p) ==> (c matches Command::GetAddressFromPointer { .. } || c is Unknown),
        describes(c, "PREVIOUS_OPCODE"@ + seq![':'] + p) ==> ((parse_address_spec(p) matches Ok(n) ==> (c matches Command::PreviousOpcode { address } && address as int == n)) && (parse_address_spec(p) is Err ==> c is Unknown)),
        describes(c, "NEXT_OPCODE"@ + seq![':'] + p) ==> ((parse_address_spec(p) matches Ok(n) ==> (c matches Command::NextOpcode { address } && address as int == n)) && (parse_address_spec(p) is Err ==> c is Unknown)),
        describes(c, "SET_BREAKPOINT"@ + seq![':'] + p) ==> (c matches Command::SetBreakpoint { .. } || c is Unknown),
        describes(c, "REMOVE_BREAKPOINT"@ + seq![':'] + p) ==> ((parse_address_spec(p) matches Ok(n) ==> (c matches Command::RemoveBreakpoint { address } && address as int == n)) && (parse_address_spec(p) is Err ==> c is Unknown)),
        describes(c, "CONTINUE_FROM_BREAKPOINT"@ + seq![':'] + p) ==> ((parse_i32_spec(p) matches Ok(n) ==> (c matches Command::ContinueFromBreakpoint { option } && option as int == n)) && (parse_i32_spec(p) is Err ==> c is Unknown)),
{
    assert(describes(c, "SHOW_MESSAGE"@ + seq![':'] + p) ==> (c matches Command::ShowMessage(t) && t@ == p)) by {
        lemma_verb_names(Verb::ShowMessage);
        lemma_command_parts("SHOW_MESSAGE"@, p);
    }
    assert(describes(c, "READ_MEMORY"@ + seq![':'] + p) ==> (c matches Command::ReadMemory { .. } || c is Unknown)) by {
        lemma_verb_names(Verb::ReadMemory);
        lemma_command_parts("READ_MEMORY"@, p);
    }
    assert(describes(c, "WRITE_MEMORY"@ + seq![':'] + p) ==> (c matches Command::WriteMemory { .. } || c is Unknown)) by {
        lemma_verb_names(Verb::WriteMemory);
        lemma_command_parts("WRITE_MEMORY"@, p);
    }
    assert(describes(c, "ASSEMBLE"@ + seq![':'] + p) ==> (c matches Command::Assemble { .. } || c is Unknown)) by {
        lemma_verb_names(Verb::Assemble);
        lemma_command_parts("ASSEMBLE"@, p);
    }
    assert(describes(c, "DISASSEMBLE"@ + seq![':'] + p) ==> ((parse_address_spec(p) matches Ok(n) ==> (c matches Command::Disassemble { address } && address as int == n)) && (parse_address_spec(p) is Err ==> c is Unknown))) by {
        lemma_verb_names(Verb::Disassemble);
        lemma_command_parts("DISASSEMBLE"@, p);
    }
    assert(describes(c, "AUTO_ASSEMBLE"@ + seq![':'] + p) ==> (c matches Command::AutoAssemble { script } && script@ == p)) by {
        lemma_verb_names(Verb::AutoAssemble);
        lemma_command_parts("AUTO_ASSEMBLE"@, p);
    }
    assert(describes(c, "CREATE_FORM"@ + seq![':'] + p) ==> (c matches Command::CreateForm)) by {
        lemma_verb_names(Verb::CreateForm);
        lemma_command_parts("CREATE_FORM"@, p);
    }
    assert(describes(c, "CREATE_PANEL"@ + seq![':'] + p) ==> ((parse_address_spec(p) matches Ok(n) ==> (c matches Command::CreatePanel { owner } && owner as int == n)) && (parse_address_spec(p) is Err ==> c is Unknown))) by {
        lemma_verb_names(Verb::CreatePanel);
        lemma_command_parts("CREATE_PANEL"@, p);
    }
    assert(describes(c, "CREATE_BUTTON"@ + seq![':'] + p) ==> ((parse_address_spec(p) matches Ok(n) ==> (c matches Command::CreateButton { owner } && owner as int == n)) && (parse_address_spec(p) is Err ==> c is Unknown))) by {
        lemma_verb_names(Verb::CreateButton);
        lemma_command_parts("CREATE_BUTTON"@, p);
    }
    assert(describes(c, "CREATE_LABEL"@ + seq![':'] + p) ==> ((parse_address_spec(p) matches Ok(n) ==> (c matches Command::CreateLabel { owner } && owner as int == n)) && (parse_address_spec(p) is Err ==> c is Unknown))) by {
        lemma_verb_names(Verb::CreateLabel);
        lemma_command_parts("CREATE_LABEL"@, p);
    }
    assert(describes(c, "CREATE_EDIT"@ + seq![':'] + p) ==> ((parse_address_spec(p) matches Ok(n) ==> (c matches Command::CreateEdit { owner } && owner as int == n)) && (parse_address_spec(p) is Err ==> c is Unknown))) by {
        lemma_verb_names(Verb::CreateEdit);
        lemma_command_parts("CREATE_EDIT"@, p);
    }
    assert(describes(c, "CREATE_IMAGE"@ + seq![':'] + p) ==> ((parse_address_spec(p) matches Ok(n) ==> (c matches Command::CreateImage { owner } && owner as int == n)) && (parse_address_spec(p) is Err ==> c is Unknown))) by {
        lemma_verb_names(Verb::CreateImage);
        lemma_command_parts("CREATE_IMAGE"@, p);
    }
    assert(describes(c, "CREATE_MEMO"@ + seq![':'] + p) ==> ((parse_address_spec(p) matches Ok(n) ==> (c matches Command::CreateMemo { owner } && owner as int == n)) && (parse_address_spec(p) is Err ==> c is Unknown))) by {
        lemma_verb_names(Verb::CreateMemo);
        lemma_command_parts("CREATE_MEMO"@, p);
    }
    assert(describes(c, "CREATE_GROUP_BOX"@ + seq![':'] + p) ==> ((parse_address_spec(p) matches Ok(n) ==> (c matches Command::CreateGroupBox { owner } && owner as int == n)) && (parse_address_spec(p) is Err ==> c is Unknown))) by {
        lemma_verb_names(Verb::CreateGroupBox);
        lemma_command_parts("CREATE_GROUP_BOX"@, p);
    }
    assert(describes(c, "CREATE_TIMER"@ + seq![':'] + p) ==> ((parse_address_spec(p) matches Ok(n) ==> (c matches Command::CreateTimer { owner } && owner as int == n)) && (parse_address_spec(p) is Err ==> c is Unknown))) by {
        lemma_verb_names(Verb::CreateTimer);
        lemma_command_parts("CREATE_TIMER"@, p);
    }
    assert(describes(c, "SET_CAPTION"@ + seq![':'] + p) ==> (c matches Command::SetCaption { .. } || c is Unknown)) by {
        lemma_verb_names(Verb::SetCaption);
        lemma_command_parts("SET_CAPTION"@, p);
    }
    assert(describes(c, "GET_CAPTION"@ + seq![':'] + p) ==> ((parse_address_spec(p) matches Ok(n) ==> (c matches Command::GetCaption { control } && control as int == n)) && (parse_address_spec(p) is Err ==> c is Unknown))) by {
        lemma_verb_names(Verb::GetCaption);
        lemma_command_parts("GET_CAPTION"@, p);
    }
    assert(describes(c, "SET_POSITION"@ + seq![':'] + p) ==> (c matches Command::SetPosition { .. } || c is Unknown)) by {
        lemma_verb_names(Verb::SetPosition);
        lemma_command_parts("SET_POSITION"@, p);
    }
    assert(describes(c, "GET_POSITION"@ + seq![':'] + p) ==> ((parse_address_spec(p) matches Ok(n) ==> (c matches Command::GetPosition { control } && control as int == n)) && (parse_address_spec(p) is Err ==> c is Unknown))) by {
        lemma_verb_names(Verb::GetPosition);
        lemma_command_parts("GET_POSITION"@, p);
    }
    assert(describes(c, "SET_SIZE"@ + seq![':'] + p) ==> (c matches Command::SetSize { .. } || c is Unknown)) by {
        lemma_verb_names(Verb::SetSize);
        lemma_command_parts("SET_SIZE"@, p);
    }
    assert(describes(c, "GET_SIZE"@ + seq![':'] + p) ==> ((parse_address_spec(p) matches Ok(n) ==> (c matches Command::GetSize { control } && control as int == n)) && (parse_address_spec(p) is Err ==> c is Unknown))) by {
        lemma_verb_names(Verb::GetSize);
        lemma_command_parts("GET_SIZE"@, p);
    }
    assert(describes(c, "DESTROY_OBJECT"@ + seq![':'] + p) ==> ((parse_address_spec(p) matches Ok(n) ==> (c matches Command::DestroyObject { object } && object as int == n)) && (parse_address_spec(p) is Err ==> c is Unknown))) by {
        lemma_verb_names(Verb::DestroyObject);
        lemma_command_parts("DESTROY_OBJECT"@, p);
    }
    assert(describes(c, "FORM_CENTER_SCREEN"@ + seq![':'] + p) ==> ((parse_address_spec(p) matches Ok(n) ==> (c matches Command::FormCenterScreen { form } && form as int == n)) && (parse_address_spec(p) is Err ==> c is Unknown))) by {
        lemma_verb_names(Verb::FormCenterScreen);
        lemma_command_parts("FORM_CENTER_SCREEN"@, p);
    }
    assert(describes(c, "FORM_HIDE"@ + seq![':'] + p) ==> ((parse_address_spec(p) matches Ok(n) ==> (c matches Command::FormHide { form } && form as int == n)) && (parse_address_spec(p) is Err ==> c is Unknown))) by {
        lemma_verb_names(Verb::FormHide);
        lemma_command_parts("FORM_HIDE"@, p);
    }
    assert(describes(c, "FORM_SHOW"@ + seq![':'] + p) ==> ((parse_address_spec(p) matches Ok(n) ==> (c matches Command::FormShow { form } && form as int == n)) && (parse_address_spec(p) is Err ==> c is Unknown))) by {
        lemma_verb_names(Verb::FormShow);
        lemma_command_parts("FORM_SHOW"@, p);
    }
    assert(describes(c, "IMAGE_LOAD_IMAGE_FROM_FILE"@ + seq![':'] + p) ==> (c matches Command::ImageLoadFromFile { .. } || c is Unknown)) by {
        lemma_verb_names(Verb::ImageLoadFromFile);
        lemma_command_parts("IMAGE_LOAD_IMAGE_FROM_FILE"@, p);
    }
    assert(describes(c, "IMAGE_TRANSPARENT"@ + seq![':'] + p) ==> (c matches Command::ImageTransparent { .. } || c is Unknown)) by {
        lemma_verb_names(Verb::ImageTransparent);
        lemma_command_parts("IMAGE_TRANSPARENT"@, p);
    }
    assert(describes(c, "IMAGE_STRETCH"@ + seq![':'] + p) ==> (c matches Command::ImageStretch { .. } || c is Unknown)) by {
        lemma_verb_names(Verb::ImageStretch);
        lemma_command_parts("IMAGE_STRETCH"@, p);
    }
    assert(describes(c, "TIMER_SET_INTERVAL"@ + seq![':'] + p) ==> (c matches Command::TimerSetInterval { .. } || c is Unknown)) by {
        lemma_verb_names(Verb::TimerSetInterval);
        lemma_command_parts("TIMER_SET_INTERVAL"@, p);
    }
    assert(describes(c, "CREATE_TABLE_ENTRY"@ + seq![':'] + p) ==> (c matches Command::CreateTableEntry { .. } || c is Unknown)) by {
        lemma_verb_names(Verb::CreateTableEntry);
        lemma_command_parts("CREATE_TABLE_ENTRY"@, p);
    }
    assert(describes(c, "GET_TABLE_ENTRY"@ + seq![':'] + p) ==> ((parse_i32_spec(p) matches Ok(n) ==> (c matches Command::GetTableEntry { index } && index as int == n)) && (parse_i32_spec(p) is Err ==> c is Unknown))) by {
        lemma_verb_names(Verb::GetTableEntry);
        lemma_command_parts("GET_TABLE_ENTRY"@, p);
    }
    assert(describes(c, "SET_ENTRY_DESCRIPTION"@ + seq![':'] + p) ==> (c matches Command::SetEntryDescription { .. } || c is Unknown)) by {
        lemma_verb_names(Verb::SetEntryDescription);
        lemma_command_parts("SET_ENTRY_DESCRIPTION"@, p);
    }
    assert(describes(c, "GET_ENTRY_DESCRIPTION"@ + seq![':'] + p) ==> ((parse_i32_spec(p) matches Ok(n) ==> (c matches Command::GetEntryDescription { index } && index as int == n)) && (parse_i32_spec(p) is Err ==> c is Unknown))) by {
        lemma_verb_names(Verb::GetEntryDescription);
        lemma_command_parts("GET_ENTRY_DESCRIPTION"@, p);
    }
    assert(describes(c, "SET_ENTRY_ADDRESS"@ + seq![':'] + p) ==> (c matches Command::SetEntryAddress { .. } || c is Unknown)) by {
        lemma_verb_names(Verb::SetEntryAddress);
        lemma_command_parts("SET_ENTRY_ADDRESS"@, p);
    }
    assert(describes(c, "GET_ENTRY_ADDRESS"@ + seq![':'] + p) ==> ((parse_i32_spec(p) matches Ok(n) ==> (c matches Command::GetEntryAddress { index } && index as int == n)) && (parse_i32_spec(p) is Err ==> c is Unknown))) by {
        lemma_verb_names(Verb::GetEntryAddress);
        lemma_command_parts("GET_ENTRY_ADDRESS"@, p);
    }
    assert(describes(c, "SET_ENTRY_TYPE"@ + seq![':'] + p) ==> (c matches Command::SetEntryType { .. } || c is Unknown)) by {
        lemma_verb_names(Verb::SetEntryType);
        lemma_command_parts("SET_ENTRY_TYPE"@, p);
    }
    assert(describes(c, "GET_ENTRY_TYPE"@ + seq![':'] + p) ==> ((parse_i32_spec(p) matches Ok(n) ==> (c matches Command::GetEntryType { index } && index as int == n)) && (parse_i32_spec(p) is Err ==> c is Unknown))) by {
        lemma_verb_names(Verb::GetEntryType);
        lemma_command_parts("GET_ENTRY_TYPE"@, p);
    }
    assert(describes(c, "SET_ENTRY_VALUE"@ + seq![':'] + p) ==> (c matches Command::SetEntryValue { .. } || c is Unknown)) by {
        lemma_verb_names(Verb::SetEntryValue);
        lemma_command_parts("SET_ENTRY_VALUE"@, p);
    }
    assert(describes(c, "GET_ENTRY_VALUE"@ + seq![':'] + p) ==> ((parse_i32_spec(p) matches Ok(n) ==> (c matches Command::GetEntryValue { index } && index as int == n)) && (parse_i32_spec(p) is Err ==> c is Unknown))) by {
        lemma_verb_names(Verb::GetEntryValue);
        lemma_command_parts("GET_ENTRY_VALUE"@, p);
    }
    assert(describes(c, "SET_ENTRY_SCRIPT"@ + seq![':'] + p) ==> (c matches Command::SetEntryScript { .. } || c is Unknown)) by {
        lemma_verb_names(Verb::SetEntryScript);
        lemma_command_parts("SET_ENTRY_SCRIPT"@, p);
    }
    assert(describes(c, "GET_ENTRY_SCRIPT"@ + seq![':'] + p) ==> ((parse_i32_spec(p) matches Ok(n) ==> (c matches Command::GetEntryScript { index } && index as int == n)) && (parse_i32_spec(p) is Err ==> c is Unknown))) by {
        lemma_verb_names(Verb::GetEntryScript);
        lemma_command_parts("GET_ENTRY_SCRIPT"@, p);
    }
    assert(describes(c, "FREEZE_ENTRY"@ + seq![':'] + p) ==> ((parse_i32_spec(p) matches Ok(n) ==> (c matches Command::FreezeEntry { index } && index as int == n)) && (parse_i32_spec(p) is Err ==> c is Unknown))) by {
        lemma_verb_names(Verb::FreezeEntry);
        lemma_command_parts("FREEZE_ENTRY"@, p);
    }
    assert(describes(c, "UNFREEZE_ENTRY"@ + seq![':'] + p) ==> ((parse_i32_spec(p) matches Ok(n) ==> (c matches Command::UnfreezeEntry { index } && index as int == n)) && (parse_i32_spec(p) is Err ==> c is Unknown))) by {
        lemma_verb_names(Verb::UnfreezeEntry);
        lemma_command_parts("UNFREEZE_ENTRY"@, p);
    }
    assert(describes(c, "DELETE_ENTRY"@ + seq![':'] + p) ==> ((parse_i32_spec(p) matches Ok(n) ==> (c matches Command::DeleteEntry { index } && index as int == n)) && (parse_i32_spec(p) is Err ==> c is Unknown))) by {
        lemma_verb_names(Verb::DeleteEntry);
        lemma_command_parts("DELETE_ENTRY"@, p);
    }
    assert(describes(c, "PROCESS_LIST"@ + seq![':'] + p) ==> (c matches Command::ProcessList)) by {
        lemma_verb_names(Verb::ProcessList);
        lemma_command_parts("PROCESS_LIST"@, p);
    }
    assert(describes(c, "OPEN_PROCESS"@ + seq![':'] + p) ==> ((parse_u32_spec(p) matches Ok(n) ==> (c matches Command::OpenProcess { process_id } && process_id as int == n)) && (parse_u32_spec(p) is Err ==> c is Unknown))) by {
        lemma_verb_names(Verb::OpenProcess);
        lemma_command_parts("OPEN_PROCESS"@, p);
    }
    assert(describes(c, "GET_PROCESS_ID"@ + seq![':'] + p) ==> (c matches Command::GetProcessId { process_name } && process_name@ == p)) by {
        lemma_verb_names(Verb::GetProcessId);
        lemma_command_parts("GET_PROCESS_ID"@, p);
    }
    assert(describes(c, "PAUSE_PROCESS"@ + seq![':'] + p) ==> (c matches Command::PauseProcess)) by {
        lemma_verb_names(Verb::PauseProcess);
        lemma_command_parts("PAUSE_PROCESS"@, p);
    }
    assert(describes(c, "UNPAUSE_PROCESS"@ + seq![':'] + p) ==> (c matches Command::UnpauseProcess)) by {
        lemma_verb_names(Verb::UnpauseProcess);
        lemma_command_parts("UNPAUSE_PROCESS"@, p);
    }
    assert(describes(c, "DEBUG_PROCESS"@ + seq![':'] + p) ==> ((parse_u32_spec(p) matches Ok(n) ==> (c matches Command::DebugProcess { process_id } && process_id as int == n)) && (parse_u32_spec(p) is Err ==> c is Unknown))) by {
        lemma_verb_names(Verb::DebugProcess);
        lemma_command_parts("DEBUG_PROCESS"@, p);
    }
    assert(describes(c, "CHANGE_REGISTER"@ + seq![':'] + p) ==> (c matches Command::ChangeRegister { .. } || c is Unknown)) by {
        lemma_verb_names(Verb::ChangeRegister);
        lemma_command_parts("CHANGE_REGISTER"@, p);
    }
    assert(describes(c, "INJECT_DLL"@ + seq![':'] + p) ==> (c matches Command::InjectDll { .. } || c is Unknown)) by {
        lemma_verb_names(Verb::InjectDll);
        lemma_command_parts("INJECT_DLL"@, p);
    }
    assert(describes(c, "SPEEDHACK"@ + seq![':'] + p) ==> ((float_text_spec(p) ==> (c matches Command::Speedhack { speed } && speed@ == p)) && (!float_text_spec(p) ==> c is Unknown))) by {
        lemma_verb_names(Verb::Speedhack);
        lemma_command_parts("SPEEDHACK"@, p);
    }
    assert(describes(c, "ADDRESS_TO_NAME"@ + seq![':'] + p) ==> ((parse_address_spec(p) matches Ok(n) ==> (c matches Command::AddressToName { address } && address as int == n)) && (parse_address_spec(p) is Err ==> c is Unknown))) by {
        lemma_verb_names(Verb::AddressToName);
        lemma_command_parts("ADDRESS_TO_NAME"@, p);
    }
    assert(describes(c, "NAME_TO_ADDRESS"@ + seq![':'] + p) ==> (c matches Command::NameToAddress { name } && name@ == p)) by {
        lemma_verb_names(Verb::NameToAddress);
        lemma_command_parts("NAME_TO_ADDRESS"@, p);
    }
    assert(describes(c, "GET_ADDRESS_FROM_POINTER"@ + seq![':'] + p) ==> (c matches Command::GetAddressFromPointer { .. } || c is Unknown)) by {
        lemma_verb_names(Verb::GetAddressFromPointer);
        lemma_command_parts("GET_ADDRESS_FROM_POINTER"@, p);
    }
    assert(describes(c, "PREVIOUS_OPCODE"@ + seq![':'] + p) ==> ((parse_address_spec(p) matches Ok(n) ==> (c matches Command::PreviousOpcode { address } && address as int == n)) && (parse_address_spec(p) is Err ==> c is Unknown))) by {
        lemma_verb_names(Verb::PreviousOpcode);
        lemma_command_parts("PREVIOUS_OPCODE"@, p);
    }
    assert(describes(c, "NEXT_OPCODE"@ + seq![':'] + p) ==> ((parse_address_spec(p) matches Ok(n) ==> (c matches Command::NextOpcode { address } && address as int == n)) && (parse_address_spec(p) is Err ==> c is Unknown))) by {
        lemma_verb_names(Verb::NextOpcode);
        lemma_command_parts("NEXT_OPCODE"@, p);
    }
    assert(describes(c, "SET_BREAKPOINT"@ + seq![':'] + p) ==> (c matches Command::SetBreakpoint { .. } || c is Unknown)) by {
        lemma_verb_names(Verb::SetBreakpoint);
        lemma_command_parts("SET_BREAKPOINT"@, p);
    }
    assert(describes(c, "REMOVE_BREAKPOINT"@ + seq![':'] + p) ==> ((parse_address_spec(p) matches Ok(n) ==> (c matches Command::RemoveBreakpoint { address } && address as int == n)) && (parse_address_spec(p) is Err ==> c is Unknown))) by {
        lemma_verb_names(Verb::RemoveBreakpoint);
        lemma_command_parts("REMOVE_BREAKPOINT"@, p);
    }
    assert(describes(c, "CONTINUE_FROM_BREAKPOINT"@ + seq![':'] + p) ==> ((parse_i32_spec(p) matches Ok(n) ==> (c matches Command::ContinueFromBreakpoint { option } && option as int == n)) && (parse_i32_spec(p) is Err ==> c is Unknown))) by {
        lemma_verb_names(Verb::ContinueFromBreakpoint);
        lemma_command_parts("CONTINUE_FROM_BREAKPOINT"@, p);
    }
}

/// Protocol law: the offsets of a pointer chain are the parameters that
/// read as addresses, every one of them (zero included), in order, each cut
/// to an `i32`; the parameters that do not read are the only ones left out.
pub proof fn lemma_pointer_offsets(ps: Seq<Seq<char>>)
    ensures
        pointer_offsets(ps) == ps.filter(|p: Seq<char>| parse_address_spec(p) is Ok).map_values(
            |p: Seq<char>| (parse_address_spec(p)->Ok_0 as usize) as i32,
        ),
        pointer_offsets(ps).len() == ps.filter(|p: Seq<char>| parse_address_spec(p) is Ok).len(),
    decreases ps.len(),
{
    reveal(Seq::filter);
    let ok = |p: Seq<char>| parse_address_spec(p) is Ok;
    let cut = |p: Seq<char>| (parse_address_spec(p)->Ok_0 as usize) as i32;
    if ps.len() == 0 {
        assert(ps.filter(ok) =~= Seq::<Seq<char>>::empty());
        assert(ps.filter(ok).map_values(cut) =~= Seq::<i32>::empty());
    } else {
        lemma_pointer_offsets(ps.drop_last());
        let before = ps.drop_last().filter(ok);
        assert(ps.filter(ok) == if ok(ps.last()) {
            before.push(ps.last())
        } else {
            before
        });
        if ok(ps.last()) {
            assert(before.push(ps.last()).map_values(cut) =~= before.map_values(cut).push(cut(ps.last())));
        }
    }
}

/// Protocol law: a command with several parameters, written as its name,
/// `:` and the parameters `a`, `b`, `d` separated by `,` (`a` and `b`
/// holding no `,`; `d` holding none either where the command splits at
/// every `,`), reads as that command with each parameter in its own field,
/// in order: an address or a number as the value it reads as (or the line
/// is `Unknown` when one does not read), a flag as `1` or `true`, and text
/// unchanged. A pointer chain takes its base from `a` and its offsets from
/// the pieces of `d`; a DLL without `,` has no function.
#[verifier::spinoff_prover]
#[verifier::rlimit(100)]
pub proof fn lemma_field_lines(a: Seq<char>, b: Seq<char>, d: Seq<char>, c: Command)
    requires
        free_of(a, ','),
        free_of(b, ','),
    ensures
        free_of(d, ',') && describes(c, "READ_MEMORY"@ + seq![':'] + (a + seq![','] + d)) ==> ((parse_address_spec(a) is Ok ==> (c matches Command::ReadMemory { address, type_ } && address as int == parse_address_spec(a)->Ok_0 && type_@ == d)) && (!(parse_address_spec(a) is Ok) ==> c is Unknown)),
        free_of(d, ',') && describes(c, "WRITE_MEMORY"@ + seq![':'] + (a + seq![','] + (b + seq![','] + d))) ==> ((parse_address_spec(a) is Ok ==> (c matches Command::WriteMemory { address, value, type_ } && address as int == parse_address_spec(a)->Ok_0 && value@ == b && type_@ == d)) && (!(parse_address_spec(a) is Ok) ==> c is Unknown)),
        describes(c, "ASSEMBLE"@ + seq![':'] + (a + seq![','] + d)) ==> ((parse_address_spec(a) is Ok ==> (c matches Command::Assemble { address, instruction } && address as int == parse_address_spec(a)->Ok_0 && instruction@ == d)) && (!(parse_address_spec(a) is Ok) ==> c is Unknown)),
        describes(c, "SET_CAPTION"@ + seq![':'] + (a + seq![','] + d)) ==> ((parse_address_spec(a) is Ok ==> (c matches Command::SetCaption { control, caption } && control as int == parse_address_spec(a)->Ok_0 && caption@ == d)) && (!(parse_address_spec(a) is Ok) ==> c is Unknown)),
        free_of(d, ',') && describes(c, "SET_POSITION"@ + seq![':'] + (a + seq![','] + (b + seq![','] + d))) ==> ((parse_address_spec(a) is Ok && parse_i32_spec(b) is Ok && parse_i32_spec(d) is Ok ==> (c matches Command::SetPosition { control, x, y } && control as int == parse_address_spec(a)->Ok_0 && x as int == parse_i32_spec(b)->Ok_0 && y as int == parse_i32_spec(d)->Ok_0)) && (!(parse_address_spec(a) is Ok && parse_i32_spec(b) is Ok && parse_i32_spec(d) is Ok) ==> c is Unknown)),
        free_of(d, ',') && describes(c, "SET_SIZE"@ + seq![':'] + (a + seq![','] + (b + seq![','] + d))) ==> ((parse_address_spec(a) is Ok && parse_i32_spec(b) is Ok && parse_i32_spec(d) is Ok ==> (c matches Command::SetSize { control, width, height } && control as int == parse_address_spec(a)->Ok_0 && width as int == parse_i32_spec(b)->Ok_0 && height as int == parse_i32_spec(d)->Ok_0)) && (!(parse_address_spec(a) is Ok && parse_i32_spec(b) is Ok && parse_i32_spec(d) is Ok) ==> c is Unknown)),
        describes(c, "IMAGE_LOAD_IMAGE_FROM_FILE"@ + seq![':'] + (a + seq![','] + d)) ==> ((parse_address_spec(a) is Ok ==> (c matches Command::ImageLoadFromFile { image, filename } && image as int == parse_address_spec(a)->Ok_0 && filename@ == d)) && (!(parse_address_spec(a) is Ok) ==> c is Unknown)),
        free_of(d, ',') && describes(c, "IMAGE_TRANSPARENT"@ + seq![':'] + (a + seq![','] + d)) ==> ((parse_address_spec(a) is Ok ==> (c matches Command::ImageTransparent { image, transparent } && image as int == parse_address_spec(a)->Ok_0 && transparent == flag_spec(d))) && (!(parse_address_spec(a) is Ok) ==> c is Unknown)),
        free_of(d, ',') && describes(c, "IMAGE_STRETCH"@ + seq![':'] + (a + seq![','] + d)) ==> ((parse_address_spec(a) is Ok ==> (c matches Command::ImageStretch { image, stretch } && image as int == parse_address_spec(a)->Ok_0 && stretch == flag_spec(d))) && (!(parse_address_spec(a) is Ok) ==> c is Unknown)),
        free_of(d, ',') && describes(c, "TIMER_SET_INTERVAL"@ + seq![':'] + (a + seq![','] + d)) ==> ((parse_address_spec(a) is Ok && parse_i32_spec(d) is Ok ==> (c matches Command::TimerSetInterval { timer, interval } && timer as int == parse_address_spec(a)->Ok_0 && interval as int == parse_i32_spec(d)->Ok_0)) && (!(parse_address_spec(a) is Ok && parse_i32_spec(d) is Ok) ==> c is Unknown)),
        describes(c, "CREATE_TABLE_ENTRY"@ + seq![':'] + (a + seq![','] + (b + seq![','] + d))) ==> (c matches Command::CreateTableEntry { description, address, type_ } && description@ == a && address@ == b && type_@ == d),
        describes(c, "SET_ENTRY_DESCRIPTION"@ + seq![':'] + (a + seq![','] + d)) ==> ((parse_i32_spec(a) is Ok ==> (c matches Command::SetEntryDescription { index, description } && index as int == parse_i32_spec(a)->Ok_0 && description@ == d)) && (!(parse_i32_spec(a) is Ok) ==> c is Unknown)),
        describes(c, "SET_ENTRY_ADDRESS"@ + seq![':'] + (a + seq![','] + d)) ==> ((parse_i32_spec(a) is Ok ==> (c matches Command::SetEntryAddress { index, address } && index as int == parse_i32_spec(a)->Ok_0 && address@ == d)) && (!(parse_i32_spec(a) is Ok) ==> c is Unknown)),
        describes(c, "SET_ENTRY_TYPE"@ + seq![':'] + (a + seq![','] + d)) ==> ((parse_i32_spec(a) is Ok ==> (c matches Command::SetEntryType { index, type_ } && index as int == parse_i32_spec(a)->Ok_0 && type_@ == d)) && (!(parse_i32_spec(a) is Ok) ==> c is Unknown)),
        describes(c, "SET_ENTRY_VALUE"@ + seq![':'] + (a + seq![','] + d)) ==> ((parse_i32_spec(a) is Ok ==> (c matches Command::SetEntryValue { index, value } && index as int == parse_i32_spec(a)->Ok_0 && value@ == d)) && (!(parse_i32_spec(a) is Ok) ==> c is Unknown)),
        describes(c, "SET_ENTRY_SCRIPT"@ + seq![':'] + (a + seq![','] + d)) ==> ((parse_i32_spec(a) is Ok ==> (c matches Command::SetEntryScript { index, script } && index as int == parse_i32_spec(a)->Ok_0 && script@ == d)) && (!(parse_i32_spec(a) is Ok) ==> c is Unknown)),
        describes(c, "CHANGE_REGISTER"@ + seq![':'] + (a + seq![','] + (b + seq![','] + d))) ==> ((parse_address_spec(a) is Ok ==> (c matches Command::ChangeRegister { address, reg, value } && address as int == parse_address_spec(a)->Ok_0 && reg@ == b && value@ == d)) && (!(parse_address_spec(a) is Ok) ==> c is Unknown)),
        describes(c, "INJECT_DLL"@ + seq![':'] + (a + seq![','] + d)) ==> (c matches Command::InjectDll { path, function } && path@ == a && function@ == d),
        describes(c, "SET_BREAKPOINT"@ + seq![':'] + (a + seq![','] + (b + seq![','] + d))) ==> ((parse_address_spec(a) is Ok && parse_i32_spec(b) is Ok && parse_i32_spec(d) is Ok ==> (c matches Command::SetBreakpoint { address, size, trigger } && address as int == parse_address_spec(a)->Ok_0 && size as int == parse_i32_spec(b)->Ok_0 && trigger as int == parse_i32_spec(d)->Ok_0)) && (!(parse_address_spec(a) is Ok && parse_i32_spec(b) is Ok && parse_i32_spec(d) is Ok) ==> c is Unknown)),
        describes(c, "GET_ADDRESS_FROM_POINTER"@ + seq![':'] + (a + seq![','] + d)) ==> ((parse_address_spec(a) is Ok ==> (c matches Command::GetAddressFromPointer { base, offsets } && base as int == parse_address_spec(a)->Ok_0 && offsets@ == pointer_offsets(split_all(d, ',')))) && (parse_address_spec(a) is Err ==> c is Unknown)),
        describes(c, "GET_ADDRESS_FROM_POINTER"@ + seq![':'] + a) ==> ((parse_address_spec(a) is Ok ==> (c matches Command::GetAddressFromPointer { base, offsets } && base as int == parse_address_spec(a)->Ok_0 && offsets@.len() == 0)) && (parse_address_spec(a) is Err ==> c is Unknown)),
        describes(c, "INJECT_DLL"@ + seq![':'] + a) ==> (c matches Command::InjectDll { path, function } && path@ == a && function@.len() == 0),
{
    assert(free_of(d, ',') && describes(c, "READ_MEMORY"@ + seq![':'] + (a + seq![','] + d)) ==> ((parse_address_spec(a) is Ok ==> (c matches Command::ReadMemory { address, type_ } && address as int == parse_address_spec(a)->Ok_0 && type_@ == d)) && (!(parse_address_spec(a) is Ok) ==> c is Unknown))) by {
        lemma_verb_names(Verb::ReadMemory);
        lemma_command_parts("READ_MEMORY"@, a + seq![','] + d);
        lemma_split_first(a, ',', d, None);
        if free_of(d, ',') {
            lemma_split_free(d, ',', None);
        }
    }
    assert(free_of(d, ',') && describes(c, "WRITE_MEMORY"@ + seq![':'] + (a + seq![','] + (b + seq![','] + d))) ==> ((parse_address_spec(a) is Ok ==> (c matches Command::WriteMemory { address, value, type_ } && address as int == parse_address_spec(a)->Ok_0 && value@ == b && type_@ == d)) && (!(parse_address_spec(a) is Ok) ==> c is Unknown))) by {
        lemma_verb_names(Verb::WriteMemory);
        lemma_command_parts("WRITE_MEMORY"@, a + seq![','] + (b + seq![','] + d));
        lemma_split_first(a, ',', b + seq![','] + d, None);
        lemma_split_first(b, ',', d, None);
        if free_of(d, ',') {
            lemma_split_free(d, ',', None);
        }
    }
    assert(describes(c, "ASSEMBLE"@ + seq![':'] + (a + seq![','] + d)) ==> ((parse_address_spec(a) is Ok ==> (c matches Command::Assemble { address, instruction } && address as int == parse_address_spec(a)->Ok_0 && instruction@ == d)) && (!(parse_address_spec(a) is Ok) ==> c is Unknown))) by {
        lemma_verb_names(Verb::Assemble);
        lemma_command_parts("ASSEMBLE"@, a + seq![','] + d);
        lemma_split_first(a, ',', d, Some(2));
        lemma_split_one(d, ',');
    }
    assert(describes(c, "SET_CAPTION"@ + seq![':'] + (a + seq![','] + d)) ==> ((parse_address_spec(a) is Ok ==> (c matches Command::SetCaption { control, caption } && control as int == parse_address_spec(a)->Ok_0 && caption@ == d)) && (!(parse_address_spec(a) is Ok) ==> c is Unknown))) by {
        lemma_verb_names(Verb::SetCaption);
        lemma_command_parts("SET_CAPTION"@, a + seq![','] + d);
        lemma_split_first(a, ',', d, Some(2));
        lemma_split_one(d, ',');
    }
    assert(free_of(d, ',') && describes(c, "SET_POSITION"@ + seq![':'] + (a + seq![','] + (b + seq![','] + d))) ==> ((parse_address_spec(a) is Ok && parse_i32_spec(b) is Ok && parse_i32_spec(d) is Ok ==> (c matches Command::SetPosition { control, x, y } && control as int == parse_address_spec(a)->Ok_0 && x as int == parse_i32_spec(b)->Ok_0 && y as int == parse_i32_spec(d)->Ok_0)) && (!(parse_address_spec(a) is Ok && parse_i32_spec(b) is Ok && parse_i32_spec(d) is Ok) ==> c is Unknown))) by {
        lemma_verb_names(Verb::SetPosition);
        lemma_command_parts("SET_POSITION"@, a + seq![','] + (b + seq![','] + d));
        lemma_split_first(a, ',', b + seq![','] + d, None);
        lemma_split_first(b, ',', d, None);
        if free_of(d, ',') {
            lemma_split_free(d, ',', None);
        }
    }
    assert(free_of(d, ',') && describes(c, "SET_SIZE"@ + seq![':'] + (a + seq![','] + (b + seq![','] + d))) ==> ((parse_address_spec(a) is Ok && parse_i32_spec(b) is Ok && parse_i32_spec(d) is Ok ==> (c matches Command::SetSize { control, width, height } && control as int == parse_address_spec(a)->Ok_0 && width as int == parse_i32_spec(b)->Ok_0 && height as int == parse_i32_spec(d)->Ok_0)) && (!(parse_address_spec(a) is Ok && parse_i32_spec(b) is Ok && parse_i32_spec(d) is Ok) ==> c is Unknown))) by {
        lemma_verb_names(Verb::SetSize);
        lemma_command_parts("SET_SIZE"@, a + seq![','] + (b + seq![','] + d));
        lemma_split_first(a, ',', b + seq![','] + d, None);
        lemma_split_first(b, ',', d, None);
        if free_of(d, ',') {
            lemma_split_free(d, ',', None);
        }
    }
    assert(describes(c, "IMAGE_LOAD_IMAGE_FROM_FILE"@ + seq![':'] + (a + seq![','] + d)) ==> ((parse_address_spec(a) is Ok ==> (c matches Command::ImageLoadFromFile { image, filename } && image as int == parse_address_spec(a)->Ok_0 && filename@ == d)) && (!(parse_address_spec(a) is Ok) ==> c is Unknown))) by {
        lemma_verb_names(Verb::ImageLoadFromFile);
        lemma_command_parts("IMAGE_LOAD_IMAGE_FROM_FILE"@, a + seq![','] + d);
        lemma_split_first(a, ',', d, Some(2));
        lemma_split_one(d, ',');
    }
    assert(free_of(d, ',') && describes(c, "IMAGE_TRANSPARENT"@ + seq![':'] + (a + seq![','] + d)) ==> ((parse_address_spec(a) is Ok ==> (c matches Command::ImageTransparent { image, transparent } && image as int == parse_address_spec(a)->Ok_0 && transparent == flag_spec(d))) && (!(parse_address_spec(a) is Ok) ==> c is Unknown))) by {
        lemma_verb_names(Verb::ImageTransparent);
        lemma_command_parts("IMAGE_TRANSPARENT"@, a + seq![','] + d);
        lemma_split_first(a, ',', d, None);
        if free_of(d, ',') {
            lemma_split_free(d, ',', None);
        }
    }
    assert(free_of(d, ',') && describes(c, "IMAGE_STRETCH"@ + seq![':'] + (a + seq![','] + d)) ==> ((parse_address_spec(a) is Ok ==> (c matches Command::ImageStretch { image, stretch } && image as int == parse_address_spec(a)->Ok_0 && stretch == flag_spec(d))) && (!(parse_address_spec(a) is Ok) ==> c is Unknown))) by {
        lemma_verb_names(Verb::ImageStretch);
        lemma_command_parts("IMAGE_STRETCH"@, a + seq![','] + d);
        lemma_split_first(a, ',', d, None);
        if free_of(d, ',') {
            lemma_split_free(d, ',', None);
        }
    }
    assert(free_of(d, ',') && describes(c, "TIMER_SET_INTERVAL"@ + seq![':'] + (a + seq![','] + d)) ==> ((parse_address_spec(a) is Ok && parse_i32_spec(d) is Ok ==> (c matches Command::TimerSetInterval { timer, interval } && timer as int == parse_address_spec(a)->Ok_0 && interval as int == parse_i32_spec(d)->Ok_0)) && (!(parse_address_spec(a) is Ok && parse_i32_spec(d) is Ok) ==> c is Unknown))) by {
        lemma_verb_names(Verb::TimerSetInterval);
        lemma_command_parts("TIMER_SET_INTERVAL"@, a + seq![','] + d);
        lemma_split_first(a, ',', d, None);
        if free_of(d, ',') {
            lemma_split_free(d, ',', None);
        }
    }
    assert(describes(c, "CREATE_TABLE_ENTRY"@ + seq![':'] + (a + seq![','] + (b + seq![','] + d))) ==> (c matches Command::CreateTableEntry { description, address, type_ } && description@ == a && address@ == b && type_@ == d)) by {
        lemma_verb_names(Verb::CreateTableEntry);
        lemma_command_parts("CREATE_TABLE_ENTRY"@, a + seq![','] + (b + seq![','] + d));
        lemma_split_first(a, ',', b + seq![','] + d, Some(3));
        lemma_split_first(b, ',', d, Some(2));
        lemma_split_one(d, ',');
    }
    assert(describes(c, "SET_ENTRY_DESCRIPTION"@ + seq![':'] + (a + seq![','] + d)) ==> ((parse_i32_spec(a) is Ok ==> (c matches Command::SetEntryDescription { index, description } && index as int == parse_i32_spec(a)->Ok_0 && description@ == d)) && (!(parse_i32_spec(a) is Ok) ==> c is Unknown))) by {
        lemma_verb_names(Verb::SetEntryDescription);
        lemma_command_parts("SET_ENTRY_DESCRIPTION"@, a + seq![','] + d);
        lemma_split_first(a, ',', d, Some(2));
        lemma_split_one(d, ',');
    }
    assert(describes(c, "SET_ENTRY_ADDRESS"@ + seq![':'] + (a + seq![','] + d)) ==> ((parse_i32_spec(a) is Ok ==> (c matches Command::SetEntryAddress { index, address } && index as int == parse_i32_spec(a)->Ok_0 && address@ == d)) && (!(parse_i32_spec(a) is Ok) ==> c is Unknown))) by {
        lemma_verb_names(Verb::SetEntryAddress);
        lemma_command_parts("SET_ENTRY_ADDRESS"@, a + seq![','] + d);
        lemma_split_first(a, ',', d, Some(2));
        lemma_split_one(d, ',');
    }
    assert(describes(c, "SET_ENTRY_TYPE"@ + seq![':'] + (a + seq![','] + d)) ==> ((parse_i32_spec(a) is Ok ==> (c matches Command::SetEntryType { index, type_ } && index as int == parse_i32_spec(a)->Ok_0 && type_@ == d)) && (!(parse_i32_spec(a) is Ok) ==> c is Unknown))) by {
        lemma_verb_names(Verb::SetEntryType);
        lemma_command_parts("SET_ENTRY_TYPE"@, a + seq![','] + d);
        lemma_split_first(a, ',', d, Some(2));
        lemma_split_one(d, ',');
    }
    assert(describes(c, "SET_ENTRY_VALUE"@ + seq![':'] + (a + seq![','] + d)) ==> ((parse_i32_spec(a) is Ok ==> (c matches Command::SetEntryValue { index, value } && index as int == parse_i32_spec(a)->Ok_0 && value@ == d)) && (!(parse_i32_spec(a) is Ok) ==> c is Unknown))) by {
        lemma_verb_names(Verb::SetEntryValue);
        lemma_command_parts("SET_ENTRY_VALUE"@, a + seq![','] + d);
        lemma_split_first(a, ',', d, Some(2));
        lemma_split_one(d, ',');
    }
    assert(describes(c, "SET_ENTRY_SCRIPT"@ + seq![':'] + (a + seq![','] + d)) ==> ((parse_i32_spec(a) is Ok ==> (c matches Command::SetEntryScript { index, script } && index as int == parse_i32_spec(a)->Ok_0 && script@ == d)) && (!(parse_i32_spec(a) is Ok) ==> c is Unknown))) by {
        lemma_verb_names(Verb::SetEntryScript);
        lemma_command_parts("SET_ENTRY_SCRIPT"@, a + seq![','] + d);
        lemma_split_first(a, ',', d, Some(2));
        lemma_split_one(d, ',');
    }
    assert(describes(c, "CHANGE_REGISTER"@ + seq![':'] + (a + seq![','] + (b + seq![','] + d))) ==> ((parse_address_spec(a) is Ok ==> (c matches Command::ChangeRegister { address, reg, value } && address as int == parse_address_spec(a)->Ok_0 && reg@ == b && value@ == d)) && (!(parse_address_spec(a) is Ok) ==> c is Unknown))) by {
        lemma_verb_names(Verb::ChangeRegister);
        lemma_command_parts("CHANGE_REGISTER"@, a + seq![','] + (b + seq![','] + d));
        lemma_split_first(a, ',', b + seq![','] + d, Some(3));
        lemma_split_first(b, ',', d, Some(2));
        lemma_split_one(d, ',');
    }
    assert(describes(c, "INJECT_DLL"@ + seq![':'] + (a + seq![','] + d)) ==> (c matches Command::InjectDll { path, function } && path@ == a && function@ == d)) by {
        lemma_verb_names(Verb::InjectDll);
        lemma_command_parts("INJECT_DLL"@, a + seq![','] + d);
        lemma_split_first(a, ',', d, Some(2));
        lemma_split_one(d, ',');
    }
    assert(describes(c, "SET_BREAKPOINT"@ + seq![':'] + (a + seq![','] + (b + seq![','] + d))) ==> ((parse_address_spec(a) is Ok && parse_i32_spec(b) is Ok && parse_i32_spec(d) is Ok ==> (c matches Command::SetBreakpoint { address, size, trigger } && address as int == parse_address_spec(a)->Ok_0 && size as int == parse_i32_spec(b)->Ok_0 && trigger as int == parse_i32_spec(d)->Ok_0)) && (!(parse_address_spec(a) is Ok && parse_i32_spec(b) is Ok && parse_i32_spec(d) is Ok) ==> c is Unknown))) by {
        lemma_verb_names(Verb::SetBreakpoint);
        lemma_command_parts("SET_BREAKPOINT"@, a + seq![','] + (b + seq![','] + d));
        lemma_split_first(a, ',', b + seq![','] + d, Some(3));
        lemma_split_first(b, ',', d, Some(2));
        lemma_split_one(d, ',');
    }
    assert(describes(c, "GET_ADDRESS_FROM_POINTER"@ + seq![':'] + (a + seq![','] + d)) ==> ((parse_address_spec(a) is Ok ==> (c matches Command::GetAddressFromPointer { base, offsets } && base as int == parse_address_spec(a)->Ok_0 && offsets@ == pointer_offsets(split_all(d, ',')))) && (parse_address_spec(a) is Err ==> c is Unknown))) by {
        lemma_verb_names(Verb::GetAddressFromPointer);
        lemma_command_parts("GET_ADDRESS_FROM_POINTER"@, a + seq![','] + d);
        lemma_split_first(a, ',', d, None);
        assert((seq![a] + split_all(d, ',')).skip(1) =~= split_all(d, ','));
    }
    assert(describes(c, "GET_ADDRESS_FROM_POINTER"@ + seq![':'] + a) ==> ((parse_address_spec(a) is Ok ==> (c matches Command::GetAddressFromPointer { base, offsets } && base as int == parse_address_spec(a)->Ok_0 && offsets@.len() == 0)) && (parse_address_spec(a) is Err ==> c is Unknown))) by {
        lemma_verb_names(Verb::GetAddressFromPointer);
        lemma_command_parts("GET_ADDRESS_FROM_POINTER"@, a);
        lemma_split_free(a, ',', None);
        assert(seq![a].skip(1) =~= Seq::<Seq<char>>::empty());
    }
    assert(describes(c, "INJECT_DLL"@ + seq![':'] + a) ==> (c matches Command::InjectDll { path, function } && path@ == a && function@.len() == 0)) by {
        lemma_verb_names(Verb::InjectDll);
        lemma_command_parts("INJECT_DLL"@, a);
        lemma_split_free(a, ',', Some(2));
    }
}

} // verus!
