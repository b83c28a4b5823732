//! The operations that the daemon offers on the message bus: their names,
//! what each takes and returns, and what must hold before any is served.
//!
//! The transport is the host's. It hands over the name and the arguments of
//! a call and sends back the values, or the one message of a failure.

use vstd::prelude::*;
use vstd::string::*;
use crate::error::{unit_view, Error, ErrorKind, ErrorView};

verus! {

/// The name that the daemon owns on the system bus.
pub const BUS_NAME: &'static str = "com.system76.FirmwareDaemon";

/// The path of the object that offers the operations.
pub const OBJECT_PATH: &'static str = "/com/system76/FirmwareDaemon";

/// An operation of the daemon.
#[derive(Clone, Copy, Debug, PartialEq, Eq, Structural)]
pub enum Operation {
    /// The BIOS model and version.
    GetBiosInfo,
    /// The project and version of an embedded controller.
    GetEmbeddedControllerInfo,
    /// Whether the management engine is enabled, and its version.
    GetManagementEngineInfo,
    /// The firmware identifier of this machine.
    GetFirmwareId,
    /// Fetch the current release into the cache.
    Download,
    /// Stage a release for the next boot.
    Schedule,
    /// Take a staged release back.
    Unschedule,
}

/// The kind of a value that travels with a call or a reply.
#[derive(Clone, Copy, Debug, PartialEq, Eq, Structural)]
pub enum Kind {
    /// True or false.
    Flag,
    /// A text.
    Text,
}

/// One of the values that an operation takes or returns.
#[derive(Clone, Copy, Debug, PartialEq, Eq)]
pub struct Field {
    pub name: &'static str,
    pub kind: Kind,
}

/// The mathematical value of a [`Field`].
pub struct FieldView {
    pub name: Seq<char>,
    pub kind: Kind,
}

impl View for Field {
    type V = FieldView;

    open spec fn view(&self) -> FieldView {
        FieldView { name: self.name@, kind: self.kind }
    }
}

/// A flag called `name`.
pub open spec fn flag(name: Seq<char>) -> FieldView {
    FieldView { name, kind: Kind::Flag }
}

/// A text called `name`.
pub open spec fn text(name: Seq<char>) -> FieldView {
    FieldView { name, kind: Kind::Text }
}

/// A value that travels with a call or a reply.
#[derive(Debug, PartialEq, Eq)]
pub enum Value {
    Flag(bool),
    Text(String),
}

/// The mathematical value of a [`Value`].
pub enum ValueView {
    Flag(bool),
    Text(Seq<char>),
}

impl View for Value {
    type V = ValueView;

    open spec fn view(&self) -> ValueView {
        match *self {
            Value::Flag(flag) => ValueView::Flag(flag),
            Value::Text(text) => ValueView::Text(text@),
        }
    }
}

/// A call, with what it was given.
#[derive(Debug, PartialEq, Eq)]
pub enum Call {
    GetBiosInfo,
    /// `primary` chooses between the first and the second controller.
    GetEmbeddedControllerInfo { primary: bool },
    GetManagementEngineInfo,
    GetFirmwareId,
    Download,
    /// `digest` names the manifest of the release to stage.
    Schedule { digest: String },
    Unschedule,
}

/// The mathematical value of a [`Call`].
pub enum CallView {
    GetBiosInfo,
    GetEmbeddedControllerInfo { primary: bool },
    GetManagementEngineInfo,
    GetFirmwareId,
    Download,
    Schedule { digest: Seq<char> },
    Unschedule,
}

impl View for Call {
    type V = CallView;

    open spec fn view(&self) -> CallView {
        match *self {
            Call::GetBiosInfo => CallView::GetBiosInfo,
            Call::GetEmbeddedControllerInfo { primary } => CallView::GetEmbeddedControllerInfo {
                primary,
            },
            Call::GetManagementEngineInfo => CallView::GetManagementEngineInfo,
            Call::GetFirmwareId => CallView::GetFirmwareId,
            Call::Download => CallView::Download,
            Call::Schedule { digest } => CallView::Schedule { digest: digest@ },
            Call::Unschedule => CallView::Unschedule,
        }
    }
}

/// What an operation has to report.
#[derive(Debug, PartialEq, Eq)]
pub enum Answer {
    BiosInfo { model: String, version: String },
    EmbeddedControllerInfo { project: String, version: String },
    /// The version of the management engine's firmware, or `None` where
    /// the engine is disabled.
    ManagementEngineInfo { firmware: Option<String> },
    FirmwareId { id: String },
    Downloaded { digest: String, changelog: String },
    Scheduled,
    Unscheduled,
}

/// The mathematical value of an [`Answer`].
pub enum AnswerView {
    BiosInfo { model: Seq<char>, version: Seq<char> },
    EmbeddedControllerInfo { project: Seq<char>, version: Seq<char> },
    ManagementEngineInfo { firmware: Option<Seq<char>> },
    FirmwareId { id: Seq<char> },
    Downloaded { digest: Seq<char>, changelog: Seq<char> },
    Scheduled,
    Unscheduled,
}

impl View for Answer {
    type V = AnswerView;

    open spec fn view(&self) -> AnswerView {
        match *self {
            Answer::BiosInfo { model, version } => AnswerView::BiosInfo {
                model: model@,
                version: version@,
            },
            Answer::EmbeddedControllerInfo {
                project,
                version,
            } => AnswerView::EmbeddedControllerInfo { project: project@, version: version@ },
            Answer::ManagementEngineInfo { firmware: Some(version) } => AnswerView::ManagementEngineInfo {
                firmware: Some(version@),
            },
            Answer::ManagementEngineInfo { firmware: None } => AnswerView::ManagementEngineInfo {
                firmware: None,
            },
            Answer::FirmwareId { id } => AnswerView::FirmwareId { id: id@ },
            Answer::Downloaded { digest, changelog } => AnswerView::Downloaded {
                digest: digest@,
                changelog: changelog@,
            },
            Answer::Scheduled => AnswerView::Scheduled,
            Answer::Unscheduled => AnswerView::Unscheduled,
        }
    }
}

/// The name of `operation` on the bus.
pub open spec fn name_of(operation: Operation) -> Seq<char> {
    match operation {
        Operation::GetBiosInfo => "GetBiosInfo"@,
        Operation::GetEmbeddedControllerInfo => "GetEmbeddedControllerInfo"@,
        Operation::GetManagementEngineInfo => "GetManagementEngineInfo"@,
        Operation::GetFirmwareId => "GetFirmwareId"@,
        Operation::Download => "Download"@,
        Operation::Schedule => "Schedule"@,
        Operation::Unschedule => "Unschedule"@,
    }
}

/// The operation that is called `name`, if there is one.
pub open spec fn operation_named(name: Seq<char>) -> Option<Operation> {
    if name == name_of(Operation::GetBiosInfo) {
        Some(Operation::GetBiosInfo)
    } else if name == name_of(Operation::GetEmbeddedControllerInfo) {
        Some(Operation::GetEmbeddedControllerInfo)
    } else if name == name_of(Operation::GetManagementEngineInfo) {
        Some(Operation::GetManagementEngineInfo)
    } else if name == name_of(Operation::GetFirmwareId) {
        Some(Operation::GetFirmwareId)
    } else if name == name_of(Operation::Download) {
        Some(Operation::Download)
    } else if name == name_of(Operation::Schedule) {
        Some(Operation::Schedule)
    } else if name == name_of(Operation::Unschedule) {
        Some(Operation::Unschedule)
    } else {
        None
    }
}

/// What `operation` takes, in order.
pub open spec fn inputs_of(operation: Operation) -> Seq<FieldView> {
    match operation {
        Operation::GetEmbeddedControllerInfo => seq![flag("primary"@)],
        Operation::Schedule => seq![text("digest"@)],
        _ => Seq::empty(),
    }
}

/// What `operation` returns, in order.
pub open spec fn outputs_of(operation: Operation) -> Seq<FieldView> {
    match operation {
        Operation::GetBiosInfo => seq![text("model"@), text("version"@)],
        Operation::GetEmbeddedControllerInfo => seq![text("project"@), text("version"@)],
        Operation::GetManagementEngineInfo => seq![flag("enabled"@), text("version"@)],
        Operation::GetFirmwareId => seq![text("id"@)],
        Operation::Download => seq![text("digest"@), text("changelog"@)],
        Operation::Schedule => Seq::empty(),
        Operation::Unschedule => Seq::empty(),
    }
}

/// The views of some fields.
pub open spec fn fields(listed: Seq<Field>) -> Seq<FieldView> {
    listed.map_values(|field: Field| field@)
}

/// The kind of `value`.
pub open spec fn kind_of(value: ValueView) -> Kind {
    match value {
        ValueView::Flag(_) => Kind::Flag,
        ValueView::Text(_) => Kind::Text,
    }
}

/// Every answer carries what its operation is said to return: as many
/// values, of the same kinds, in the same order.
pub proof fn answers_fit_their_operation(answer: AnswerView)
    ensures
        values_of(answer).len() == outputs_of(operation_of(answer)).len(),
        forall|i: int|
            0 <= i < values_of(answer).len() ==> kind_of(#[trigger] values_of(answer)[i])
                == outputs_of(operation_of(answer))[i].kind,
{
}

/// The operation that gives `answer`.
pub open spec fn operation_of(answer: AnswerView) -> Operation {
    match answer {
        AnswerView::BiosInfo { .. } => Operation::GetBiosInfo,
        AnswerView::EmbeddedControllerInfo { .. } => Operation::GetEmbeddedControllerInfo,
        AnswerView::ManagementEngineInfo { .. } => Operation::GetManagementEngineInfo,
        AnswerView::FirmwareId { .. } => Operation::GetFirmwareId,
        AnswerView::Downloaded { .. } => Operation::Download,
        AnswerView::Scheduled => Operation::Schedule,
        AnswerView::Unscheduled => Operation::Unschedule,
    }
}

/// What [`parse_call`] makes of a message.
pub open spec fn parsed_call(name: Seq<char>, arguments: Seq<ValueView>) -> Result<
    CallView,
    ErrorView,
> {
    match operation_named(name) {
        Some(operation) => call_of(operation, arguments),
        None => Err(unknown(name)),
    }
}

/// The failure for a call that names no operation.
pub open spec fn unknown(name: Seq<char>) -> ErrorView {
    ErrorView { kind: ErrorKind::Precondition, detail: "unknown operation "@ + name }
}

/// The failure for a call without the argument that its operation takes.
pub open spec fn ill_formed(name: Seq<char>) -> ErrorView {
    ErrorView { kind: ErrorKind::Precondition, detail: "wrong arguments for "@ + name }
}

/// The call of `operation` with `arguments`: the operations that take
/// something take it from the first argument, which must be of the right
/// kind; what else is given is not looked at.
pub open spec fn call_of(operation: Operation, arguments: Seq<ValueView>) -> Result<
    CallView,
    ErrorView,
> {
    match operation {
        Operation::GetBiosInfo => Ok(CallView::GetBiosInfo),
        Operation::GetEmbeddedControllerInfo => if arguments.len() > 0
            && arguments[0] is Flag {
            Ok(CallView::GetEmbeddedControllerInfo { primary: arguments[0]->Flag_0 })
        } else {
            Err(ill_formed(name_of(operation)))
        },
        Operation::GetManagementEngineInfo => Ok(CallView::GetManagementEngineInfo),
        Operation::GetFirmwareId => Ok(CallView::GetFirmwareId),
        Operation::Download => Ok(CallView::Download),
        Operation::Schedule => if arguments.len() > 0 && arguments[0] is Text {
            Ok(CallView::Schedule { digest: arguments[0]->Text_0 })
        } else {
            Err(ill_formed(name_of(operation)))
        },
        Operation::Unschedule => Ok(CallView::Unschedule),
    }
}

/// The values that carry `answer`, in the order of the operation's results.
/// A disabled management engine is reported as `false` and an empty
/// version.
pub open spec fn values_of(answer: AnswerView) -> Seq<ValueView> {
    match answer {
        AnswerView::BiosInfo { model, version } => seq![
            ValueView::Text(model),
            ValueView::Text(version),
        ],
        AnswerView::EmbeddedControllerInfo { project, version } => seq![
            ValueView::Text(project),
            ValueView::Text(version),
        ],
        AnswerView::ManagementEngineInfo { firmware: Some(version) } => seq![
            ValueView::Flag(true),
            ValueView::Text(version),
        ],
        AnswerView::ManagementEngineInfo { firmware: None } => seq![
            ValueView::Flag(false),
            ValueView::Text(Seq::empty()),
        ],
        AnswerView::FirmwareId { id } => seq![ValueView::Text(id)],
        AnswerView::Downloaded { digest, changelog } => seq![
            ValueView::Text(digest),
            ValueView::Text(changelog),
        ],
        AnswerView::Scheduled => Seq::empty(),
        AnswerView::Unscheduled => Seq::empty(),
    }
}

/// The view of a call or the failure to make one.
pub open spec fn call_view(r: Result<Call, Error>) -> Result<CallView, ErrorView> {
    match r {
        Ok(call) => Ok(call@),
        Err(e) => Err(e@),
    }
}

/// The views of some values.
pub open spec fn views(values: Seq<Value>) -> Seq<ValueView> {
    values.map_values(|value: Value| value@)
}

impl Operation {
    /// Every operation, in the order in which the daemon offers them.
    pub fn all() -> (operations: Vec<Operation>)
        ensures
            operations@ == seq![
                Operation::GetBiosInfo,
                Operation::GetEmbeddedControllerInfo,
                Operation::GetManagementEngineInfo,
                Operation::GetFirmwareId,
                Operation::Download,
                Operation::Schedule,
                Operation::Unschedule,
            ],
    {
        let mut operations = Vec::new();
        operations.push(Operation::GetBiosInfo);
        operations.push(Operation::GetEmbeddedControllerInfo);
        operations.push(Operation::GetManagementEngineInfo);
        operations.push(Operation::GetFirmwareId);
        operations.push(Operation::Download);
        operations.push(Operation::Schedule);
        operations.push(Operation::Unschedule);
        assert(operations@ =~= seq![
            Operation::GetBiosInfo,
            Operation::GetEmbeddedControllerInfo,
            Operation::GetManagementEngineInfo,
            Operation::GetFirmwareId,
            Operation::Download,
            Operation::Schedule,
            Operation::Unschedule,
        ]);
        operations
    }

    /// The name of the operation on the bus.
    pub fn name(self) -> (name: &'static str)
        ensures
            name@ == name_of(self),
    {
        match self {
            Operation::GetBiosInfo => "GetBiosInfo",
            Operation::GetEmbeddedControllerInfo => "GetEmbeddedControllerInfo",
            Operation::GetManagementEngineInfo => "GetManagementEngineInfo",
            Operation::GetFirmwareId => "GetFirmwareId",
            Operation::Download => "Download",
            Operation::Schedule => "Schedule",
            Operation::Unschedule => "Unschedule",
        }
    }

    /// The operation that is called `name`, if there is one.
    pub fn named(name: &str) -> (found: Option<Operation>)
        ensures
            found == operation_named(name@),
    {
        let wanted = String::from_str(name);
        let operations = Operation::all();
        let mut i: usize = 0;
        while i < operations.len()
            invariant
                i <= operations.len(),
                wanted@ == name@,
                operations@ == seq![
                    Operation::GetBiosInfo,
                    Operation::GetEmbeddedControllerInfo,
                    Operation::GetManagementEngineInfo,
                    Operation::GetFirmwareId,
                    Operation::Download,
                    Operation::Schedule,
                    Operation::Unschedule,
                ],
                forall|k: int| 0 <= k < i ==> name_of(#[trigger] operations@[k]) != name@,
            decreases operations.len() - i,
        {
            let operation = operations[i];
            if String::from_str(operation.name()) == wanted {
                return Some(operation);
            }
            i = i + 1;
        }
        assert(name_of(operations@[0]) != name@);
        assert(name_of(operations@[1]) != name@);
        assert(name_of(operations@[2]) != name@);
        assert(name_of(operations@[3]) != name@);
        assert(name_of(operations@[4]) != name@);
        assert(name_of(operations@[5]) != name@);
        assert(name_of(operations@[6]) != name@);
        None
    }

    /// What the operation takes, in order.
    pub fn takes(self) -> (listed: Vec<Field>)
        ensures
            fields(listed@) == inputs_of(self),
    {
        let mut listed = Vec::new();
        match self {
            Operation::GetEmbeddedControllerInfo => listed.push(
                Field { name: "primary", kind: Kind::Flag },
            ),
            Operation::Schedule => listed.push(Field { name: "digest", kind: Kind::Text }),
            _ => {},
        }
        assert(fields(listed@) =~= inputs_of(self));
        listed
    }

    /// What the operation returns, in order.
    pub fn gives(self) -> (listed: Vec<Field>)
        ensures
            fields(listed@) == outputs_of(self),
    {
        let mut listed = Vec::new();
        match self {
            Operation::GetBiosInfo => {
                listed.push(Field { name: "model", kind: Kind::Text });
                listed.push(Field { name: "version", kind: Kind::Text });
            },
            Operation::GetEmbeddedControllerInfo => {
                listed.push(Field { name: "project", kind: Kind::Text });
                listed.push(Field { name: "version", kind: Kind::Text });
            },
            Operation::GetManagementEngineInfo => {
                listed.push(Field { name: "enabled", kind: Kind::Flag });
                listed.push(Field { name: "version", kind: Kind::Text });
            },
            Operation::GetFirmwareId => listed.push(Field { name: "id", kind: Kind::Text }),
            Operation::Download => {
                listed.push(Field { name: "digest", kind: Kind::Text });
                listed.push(Field { name: "changelog", kind: Kind::Text });
            },
            Operation::Schedule => {},
            Operation::Unschedule => {},
        }
        assert(fields(listed@) =~= outputs_of(self));
        listed
    }

    /// The call of this operation with `arguments`.
    pub fn call(self, arguments: Vec<Value>) -> (r: Result<Call, Error>)
        ensures
            call_view(r) == call_of(self, views(arguments@)),
    {
        let mut arguments = arguments;
        let ghost given = views(arguments@);
        match self {
            Operation::GetBiosInfo => Ok(Call::GetBiosInfo),
            Operation::GetManagementEngineInfo => Ok(Call::GetManagementEngineInfo),
            Operation::GetFirmwareId => Ok(Call::GetFirmwareId),
            Operation::Download => Ok(Call::Download),
            Operation::Unschedule => Ok(Call::Unschedule),
            Operation::GetEmbeddedControllerInfo => {
                if arguments.len() > 0 {
                    match arguments.swap_remove(0) {
                        Value::Flag(primary) => {
                            return Ok(Call::GetEmbeddedControllerInfo { primary });
                        },
                        Value::Text(_) => {},
                    }
                }
                let detail = String::from_str("wrong arguments for ").concat(self.name());
                Err(Error::new(ErrorKind::Precondition, detail))
            },
            Operation::Schedule => {
                if arguments.len() > 0 {
                    match arguments.swap_remove(0) {
                        Value::Text(digest) => {
                            return Ok(Call::Schedule { digest });
                        },
                        Value::Flag(_) => {},
                    }
                }
                let detail = String::from_str("wrong arguments for ").concat(self.name());
                Err(Error::new(ErrorKind::Precondition, detail))
            },
        }
    }
}

/// The call that a message makes: the operation called `name`, with
/// `arguments`.
pub fn parse_call(name: &str, arguments: Vec<Value>) -> (r: Result<Call, Error>)
    ensures
        call_view(r) == parsed_call(name@, views(arguments@)),
{
    match Operation::named(name) {
        Some(operation) => operation.call(arguments),
        None => {
            let detail = String::from_str("unknown operation ").concat(name);
            Err(Error::new(ErrorKind::Precondition, detail))
        },
    }
}

/// The values that carry `answer` on the bus.
pub fn reply_values(answer: Answer) -> (values: Vec<Value>)
    ensures
        views(values@) == values_of(answer@),
{
    let mut values = Vec::new();
    match answer {
        Answer::BiosInfo { model, version } => {
            values.push(Value::Text(model));
            values.push(Value::Text(version));
        },
        Answer::EmbeddedControllerInfo { project, version } => {
            values.push(Value::Text(project));
            values.push(Value::Text(version));
        },
        Answer::ManagementEngineInfo { firmware: Some(version) } => {
            values.push(Value::Flag(true));
            values.push(Value::Text(version));
        },
        Answer::ManagementEngineInfo { firmware: None } => {
            values.push(Value::Flag(false));
            values.push(Value::Text(String::new()));
        },
        Answer::FirmwareId { id } => {
            values.push(Value::Text(id));
        },
        Answer::Downloaded { digest, changelog } => {
            values.push(Value::Text(digest));
            values.push(Value::Text(changelog));
        },
        Answer::Scheduled => {},
        Answer::Unscheduled => {},
    }
    assert(views(values@) =~= values_of(answer@));
    values
}

/// The failure of a daemon that is not run by root.
pub open spec fn not_root() -> ErrorView {
    ErrorView { kind: ErrorKind::Precondition, detail: "must be run as root"@ }
}

/// The failure of a daemon that was refused access to the I/O ports.
pub open spec fn no_io_permission(cause: Seq<char>) -> ErrorView {
    ErrorView { kind: ErrorKind::Precondition, detail: "failed to get I/O permission: "@ + cause }
}

/// Whether the daemon may serve: it must be run by root, whose effective
/// user identifier is 0.
pub fn require_root(euid: u32) -> (r: Result<(), Error>)
    ensures
        unit_view(r) == (if euid == 0 {
            Ok(())
        } else {
            Err(not_root())
        }),
{
    if euid == 0 {
        Ok(())
    } else {
        Err(Error::new(ErrorKind::Precondition, String::from_str("must be run as root")))
    }
}

/// Whether the daemon may serve: the request for access to the I/O ports,
/// which returned `status` and on failure left the message `cause`, must not
/// have been refused.
pub fn require_io_permission(status: i32, cause: &str) -> (r: Result<(), Error>)
    ensures
        unit_view(r) == (if status < 0 {
            Err(no_io_permission(cause@))
        } else {
            Ok(())
        }),
{
    if status < 0 {
        let detail = String::from_str("failed to get I/O permission: ").concat(cause);
        Err(Error::new(ErrorKind::Precondition, detail))
    } else {
        Ok(())
    }
}

} // verus!
