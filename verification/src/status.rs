use vstd::prelude::*;
use vstd::string::StringExecFns;

verus! {

/// One lifecycle observation of a supervised run. These are append-only and
/// ordered; `Starting` doubles as the serving observation in practice, since
/// the run begins accepting right after it is emitted.
#[derive(Debug, PartialEq)]
pub enum StatusEvent {
    Starting(String),
    Serving,
    Cancelling,
    Exited,
    ExitedWithError(String),
}

/// Mathematical view of a `StatusEvent`.
pub enum EventModel {
    Starting(Seq<char>),
    Serving,
    Cancelling,
    Exited,
    ExitedWithError(Seq<char>),
}

impl DeepView for StatusEvent {
    type V = EventModel;

    open spec fn deep_view(&self) -> EventModel {
        match self {
            StatusEvent::Starting(address) => EventModel::Starting(address@),
            StatusEvent::Serving => EventModel::Serving,
            StatusEvent::Cancelling => EventModel::Cancelling,
            StatusEvent::Exited => EventModel::Exited,
            StatusEvent::ExitedWithError(message) => EventModel::ExitedWithError(message@),
        }
    }
}

impl View for StatusEvent {
    type V = EventModel;

    open spec fn view(&self) -> EventModel {
        self.deep_view()
    }
}

/// The terminal events: exactly one of them ends a run that began binding.
pub open spec fn is_terminal(e: EventModel) -> bool {
    e is Exited || e is ExitedWithError
}

/// Terminal outcome of one supervised run, produced exactly once.
#[derive(Debug, PartialEq)]
pub enum LifecycleResult {
    Completed,
    Failed(String),
}

/// Mathematical view of a `LifecycleResult`.
pub enum ResultModel {
    Completed,
    Failed(Seq<char>),
}

impl DeepView for LifecycleResult {
    type V = ResultModel;

    open spec fn deep_view(&self) -> ResultModel {
        match self {
            LifecycleResult::Completed => ResultModel::Completed,
            LifecycleResult::Failed(message) => ResultModel::Failed(message@),
        }
    }
}

impl View for LifecycleResult {
    type V = ResultModel;

    open spec fn view(&self) -> ResultModel {
        self.deep_view()
    }
}

/// The free-text line the status sink observes for each event.
pub open spec fn render_spec(e: EventModel) -> Seq<char> {
    match e {
        EventModel::Starting(address) => "Starting "@ + address,
        EventModel::Serving => "Serving"@,
        EventModel::Cancelling => "Cancelling server"@,
        EventModel::Exited => "Server is exiting"@,
        EventModel::ExitedWithError(message) => "Server error exit "@ + message,
    }
}

/// Renders one status event as the line the host logs.
pub fn render_status(event: &StatusEvent) -> (line: String)
    ensures
        line@ == render_spec(event.deep_view()),
{
    match event {
        StatusEvent::Starting(address) => {
            let mut line = String::from_str("Starting ");
            line.append(address.as_str());
            line
        }
        StatusEvent::Serving => String::from_str("Serving"),
        StatusEvent::Cancelling => String::from_str("Cancelling server"),
        StatusEvent::Exited => String::from_str("Server is exiting"),
        StatusEvent::ExitedWithError(message) => {
            let mut line = String::from_str("Server error exit ");
            line.append(message.as_str());
            line
        }
    }
}

/// The informational line logged when the cancellation channel closes
/// without ever firing: the exact signal is lost, cancellation is assumed,
/// and shutdown still proceeds.
pub fn render_cancellation_lost(detail: &String) -> (line: String)
    ensures
        line@ == "Error cancelling server, "@ + detail@,
{
    let mut line = String::from_str("Error cancelling server, ");
    line.append(detail.as_str());
    line
}

/// The structured error record a failed run attaches to the status sink:
/// `{ key: "err", value: "app host error: " + message }`.
pub struct ErrorRecord {
    pub key: String,
    pub value: String,
}

/// Builds the error record for a failed run.
pub fn error_record(message: &String) -> (record: ErrorRecord)
    ensures
        record.key@ == "err"@,
        record.value@ == "app host error: "@ + message@,
{
    let mut value = String::from_str("app host error: ");
    value.append(message.as_str());
    ErrorRecord { key: String::from_str("err"), value }
}

} // verus!
