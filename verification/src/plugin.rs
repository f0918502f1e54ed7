//! Plain values of the Cheat Engine plugin interface, and how commands of
//! the same kind share one handler.
use vstd::prelude::*;
use crate::protocol::Command;

verus! {

/// The version of the Cheat Engine plugin SDK that the plugin speaks.
pub const CESDK_VERSION: u32 = 6;

/// The state of a Lua interpreter; only ever handled behind a pointer.
#[allow(non_camel_case_types)]
pub struct lua_State {
    _opaque: (),
}

/// The kinds of callback that a plugin can register with Cheat Engine.
#[derive(Debug, Clone, Copy, PartialEq, Eq, Structural)]
pub enum PluginType {
    PtAddressList,
    PtMemoryView,
    PtOnDebugEvent,
    PtProcesswatcherEvent,
    PtFunctionPointerchange,
    PtMainMenu,
    PtDisassemblerContext,
    PtDisassemblerRenderLine,
    PtAutoAssembler,
}

impl PluginType {
    /// The number that the SDK uses for the callback kind.
    pub open spec fn code_spec(self) -> i32 {
        match self {
            PluginType::PtAddressList => 0,
            PluginType::PtMemoryView => 1,
            PluginType::PtOnDebugEvent => 2,
            PluginType::PtProcesswatcherEvent => 3,
            PluginType::PtFunctionPointerchange => 4,
            PluginType::PtMainMenu => 5,
            PluginType::PtDisassemblerContext => 6,
            PluginType::PtDisassemblerRenderLine => 7,
            PluginType::PtAutoAssembler => 8,
        }
    }

    /// The number that the SDK uses for the callback kind.
    pub fn code(&self) -> (res: i32)
        ensures
            res == self.code_spec(),
    {
        match self {
            PluginType::PtAddressList => 0,
            PluginType::PtMemoryView => 1,
            PluginType::PtOnDebugEvent => 2,
            PluginType::PtProcesswatcherEvent => 3,
            PluginType::PtFunctionPointerchange => 4,
            PluginType::PtMainMenu => 5,
            PluginType::PtDisassemblerContext => 6,
            PluginType::PtDisassemblerRenderLine => 7,
            PluginType::PtAutoAssembler => 8,
        }
    }
}

/// The controls that a command can create.
#[derive(Debug, Clone, Copy, PartialEq, Eq, Structural)]
pub enum ControlKind {
    Panel,
    Button,
    Label,
    Edit,
    Image,
    Memo,
    GroupBox,
    Timer,
}

/// What a command does to a form.
#[derive(Debug, Clone, Copy, PartialEq, Eq, Structural)]
pub enum FormAction {
    CenterScreen,
    Hide,
    Show,
}

/// The yes/no settings of an image.
#[derive(Debug, Clone, Copy, PartialEq, Eq, Structural)]
pub enum ImageOption {
    Transparent,
    Stretch,
}

/// The owner and kind of the control that `cmd` creates, if it creates one.
pub open spec fn control_creation_spec(cmd: Command) -> Option<(usize, ControlKind)> {
    match cmd {
        Command::CreatePanel { owner } => Some((owner, ControlKind::Panel)),
        Command::CreateButton { owner } => Some((owner, ControlKind::Button)),
        Command::CreateLabel { owner } => Some((owner, ControlKind::Label)),
        Command::CreateEdit { owner } => Some((owner, ControlKind::Edit)),
        Command::CreateImage { owner } => Some((owner, ControlKind::Image)),
        Command::CreateMemo { owner } => Some((owner, ControlKind::Memo)),
        Command::CreateGroupBox { owner } => Some((owner, ControlKind::GroupBox)),
        Command::CreateTimer { owner } => Some((owner, ControlKind::Timer)),
        _ => None,
    }
}

/// The owner and kind of the control that `cmd` creates, if it creates one.
pub fn control_creation(cmd: &Command) -> (res: Option<(usize, ControlKind)>)
    ensures
        res == control_creation_spec(*cmd),
{
    match cmd {
        Command::CreatePanel { owner } => Some((*owner, ControlKind::Panel)),
        Command::CreateButton { owner } => Some((*owner, ControlKind::Button)),
        Command::CreateLabel { owner } => Some((*owner, ControlKind::Label)),
        Command::CreateEdit { owner } => Some((*owner, ControlKind::Edit)),
        Command::CreateImage { owner } => Some((*owner, ControlKind::Image)),
        Command::CreateMemo { owner } => Some((*owner, ControlKind::Memo)),
        Command::CreateGroupBox { owner } => Some((*owner, ControlKind::GroupBox)),
        Command::CreateTimer { owner } => Some((*owner, ControlKind::Timer)),
        _ => None,
    }
}

/// The form and the action that `cmd` asks for, if it acts on a form.
pub open spec fn form_action_spec(cmd: Command) -> Option<(usize, FormAction)> {
    match cmd {
        Command::FormCenterScreen { form } => Some((form, FormAction::CenterScreen)),
        Command::FormHide { form } => Some((form, FormAction::Hide)),
        Command::FormShow { form } => Some((form, FormAction::Show)),
        _ => None,
    }
}

/// The form and the action that `cmd` asks for, if it acts on a form.
pub fn form_action(cmd: &Command) -> (res: Option<(usize, FormAction)>)
    ensures
        res == form_action_spec(*cmd),
{
    match cmd {
        Command::FormCenterScreen { form } => Some((*form, FormAction::CenterScreen)),
        Command::FormHide { form } => Some((*form, FormAction::Hide)),
        Command::FormShow { form } => Some((*form, FormAction::Show)),
        _ => None,
    }
}

/// The image, the value and the setting that `cmd` sets, if it sets one.
pub open spec fn image_option_spec(cmd: Command) -> Option<(usize, bool, ImageOption)> {
    match cmd {
        Command::ImageTransparent { image, transparent } => Some(
            (image, transparent, ImageOption::Transparent),
        ),
        Command::ImageStretch { image, stretch } => Some((image, stretch, ImageOption::Stretch)),
        _ => None,
    }
}

/// The image, the value and the setting that `cmd` sets, if it sets one.
pub fn image_option(cmd: &Command) -> (res: Option<(usize, bool, ImageOption)>)
    ensures
        res == image_option_spec(*cmd),
{
    match cmd {
        Command::ImageTransparent { image, transparent } => Some(
            (*image, *transparent, ImageOption::Transparent),
        ),
        Command::ImageStretch { image, stretch } => Some(
            (*image, *stretch, ImageOption::Stretch),
        ),
        _ => None,
    }
}

impl ControlKind {
    /// The number by which the control handler tells the kinds apart, in
    /// the order panel, button, label, edit, image, memo, group box, timer.
    pub open spec fn code_spec(self) -> i32 {
        match self {
            ControlKind::Panel => 0,
            ControlKind::Button => 1,
            ControlKind::Label => 2,
            ControlKind::Edit => 3,
            ControlKind::Image => 4,
            ControlKind::Memo => 5,
            ControlKind::GroupBox => 6,
            ControlKind::Timer => 7,
        }
    }

    /// The kind's number (see `code_spec`).
    pub fn code(&self) -> (res: i32)
        ensures
            res == self.code_spec(),
    {
        match self {
            ControlKind::Panel => 0,
            ControlKind::Button => 1,
            ControlKind::Label => 2,
            ControlKind::Edit => 3,
            ControlKind::Image => 4,
            ControlKind::Memo => 5,
            ControlKind::GroupBox => 6,
            ControlKind::Timer => 7,
        }
    }
}

impl FormAction {
    /// The number by which the form handler tells the actions apart:
    /// center on screen, hide, show.
    pub open spec fn code_spec(self) -> i32 {
        match self {
            FormAction::CenterScreen => 0,
            FormAction::Hide => 1,
            FormAction::Show => 2,
        }
    }

    /// The action's number (see `code_spec`).
    pub fn code(&self) -> (res: i32)
        ensures
            res == self.code_spec(),
    {
        match self {
            FormAction::CenterScreen => 0,
            FormAction::Hide => 1,
            FormAction::Show => 2,
        }
    }
}

impl ImageOption {
    /// The number by which the image handler tells the settings apart:
    /// transparency, stretching.
    pub open spec fn code_spec(self) -> i32 {
        match self {
            ImageOption::Transparent => 0,
            ImageOption::Stretch => 1,
        }
    }

    /// The setting's number (see `code_spec`).
    pub fn code(&self) -> (res: i32)
        ensures
            res == self.code_spec(),
    {
        match self {
            ImageOption::Transparent => 0,
            ImageOption::Stretch => 1,
        }
    }
}

/// The handler that runs a command.
#[derive(Debug, Clone, Copy, PartialEq, Eq, Structural)]
pub enum Handler {
    /// The control handler, creating a control of this kind on `owner`.
    CreateControl { owner: usize, kind: ControlKind },
    /// The form handler, doing this to `form`.
    FormAction { form: usize, action: FormAction },
    /// The image handler, setting this option of `image` to `value`.
    ImageOption { image: usize, value: bool, option: ImageOption },
    /// The command's own handler, which takes its fields as they are.
    Own,
}

/// The handler of `cmd`: control creations, form actions and image
/// settings share a handler each; every other command has its own.
pub open spec fn route_spec(cmd: Command) -> Handler {
    match control_creation_spec(cmd) {
        Some((owner, kind)) => Handler::CreateControl { owner, kind },
        None => match form_action_spec(cmd) {
            Some((form, action)) => Handler::FormAction { form, action },
            None => match image_option_spec(cmd) {
                Some((image, value, option)) => Handler::ImageOption { image, value, option },
                None => Handler::Own,
            },
        },
    }
}

/// The handler of `cmd` (see `route_spec`).
pub fn route(cmd: &Command) -> (res: Handler)
    ensures
        res == route_spec(*cmd),
{
    if let Some((owner, kind)) = control_creation(cmd) {
        return Handler::CreateControl { owner, kind };
    }
    if let Some((form, action)) = form_action(cmd) {
        return Handler::FormAction { form, action };
    }
    if let Some((image, value, option)) = image_option(cmd) {
        return Handler::ImageOption { image, value, option };
    }
    Handler::Own
}

/// Dispatch law: a command belongs to at most one of the shared handlers,
/// and goes to its own handler exactly when it belongs to none; the shared
/// handlers get the command's own fields; and the numbers of the kinds,
/// actions and settings are distinct and lie in `0..8`, `0..3` and `0..2`.
pub proof fn lemma_dispatch(cmd: Command)
    ensures
        (if control_creation_spec(cmd) is Some { 1int } else { 0 }) + (if form_action_spec(cmd) is Some { 1int } else { 0 })
            + (if image_option_spec(cmd) is Some { 1int } else { 0 }) <= 1,
        route_spec(cmd) is Own <==> (control_creation_spec(cmd) is None && form_action_spec(cmd) is None
            && image_option_spec(cmd) is None),
        control_creation_spec(cmd) matches Some((owner, kind)) ==> route_spec(cmd) == (Handler::CreateControl { owner, kind }),
        form_action_spec(cmd) matches Some((form, action)) ==> route_spec(cmd) == (Handler::FormAction { form, action }),
        image_option_spec(cmd) matches Some((image, value, option)) ==> route_spec(cmd) == (Handler::ImageOption { image, value, option }),
        forall|a: ControlKind, b: ControlKind| #[trigger] a.code_spec() == #[trigger] b.code_spec() ==> a == b,
        forall|a: ControlKind| 0 <= #[trigger] a.code_spec() < 8,
        forall|a: FormAction, b: FormAction| #[trigger] a.code_spec() == #[trigger] b.code_spec() ==> a == b,
        forall|a: FormAction| 0 <= #[trigger] a.code_spec() < 3,
        forall|a: ImageOption, b: ImageOption| #[trigger] a.code_spec() == #[trigger] b.code_spec() ==> a == b,
        forall|a: ImageOption| 0 <= #[trigger] a.code_spec() < 2,
{
}

/// Dispatch law: each control-creation command creates the kind of control
/// it is named after, on the owner it gives; so no two such commands create
/// the same thing.
pub proof fn lemma_control_kinds(owner: usize, c1: Command, c2: Command)
    ensures
        control_creation_spec(Command::CreatePanel { owner }) == Some((owner, ControlKind::Panel)),
        control_creation_spec(Command::CreateButton { owner }) == Some((owner, ControlKind::Button)),
        control_creation_spec(Command::CreateLabel { owner }) == Some((owner, ControlKind::Label)),
        control_creation_spec(Command::CreateEdit { owner }) == Some((owner, ControlKind::Edit)),
        control_creation_spec(Command::CreateImage { owner }) == Some((owner, ControlKind::Image)),
        control_creation_spec(Command::CreateMemo { owner }) == Some((owner, ControlKind::Memo)),
        control_creation_spec(Command::CreateGroupBox { owner }) == Some((owner, ControlKind::GroupBox)),
        control_creation_spec(Command::CreateTimer { owner }) == Some((owner, ControlKind::Timer)),
        control_creation_spec(c1) is Some && control_creation_spec(c1) == control_creation_spec(c2) ==> c1 == c2,
{
}

/// Dispatch law: each form command does to the form it gives what it is
/// named after, and each image command sets the option it is named after
/// to the value it gives; no two such commands do the same thing.
pub proof fn lemma_form_and_image_actions(form: usize, image: usize, value: bool, c1: Command, c2: Command)
    ensures
        form_action_spec(Command::FormCenterScreen { form }) == Some((form, FormAction::CenterScreen)),
        form_action_spec(Command::FormHide { form }) == Some((form, FormAction::Hide)),
        form_action_spec(Command::FormShow { form }) == Some((form, FormAction::Show)),
        image_option_spec(Command::ImageTransparent { image, transparent: value }) == Some(
            (image, value, ImageOption::Transparent),
        ),
        image_option_spec(Command::ImageStretch { image, stretch: value }) == Some(
            (image, value, ImageOption::Stretch),
        ),
        form_action_spec(c1) is Some && form_action_spec(c1) == form_action_spec(c2) ==> c1 == c2,
        image_option_spec(c1) is Some && image_option_spec(c1) == image_option_spec(c2) ==> c1 == c2,
{
}

/// Plugin law: the SDK's plugin kinds have distinct codes, `0` to `8` in
/// the SDK's order (address list first, Auto Assembler last).
pub proof fn lemma_plugin_codes(a: PluginType, b: PluginType)
    ensures
        0 <= a.code_spec() <= 8,
        a.code_spec() == b.code_spec() ==> a == b,
        PluginType::PtAddressList.code_spec() == 0,
        PluginType::PtAutoAssembler.code_spec() == 8,
{
}

} // verus!
