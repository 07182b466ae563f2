use vstd::prelude::*;

verus! {

/// Channel of the UI notification that carries a structured backend event.
pub const EVENT_CHANNEL: &'static str = "python-event";

/// Channel of the UI notification that carries a plain log line.
pub const LOG_CHANNEL: &'static str = "python-log";

/// A structured event read from one line of backend output: a name and
/// the value that came with it. `D` is the value's type; it is carried
/// through unread.
pub struct BackendEvent<D> {
    pub event: String,
    pub data: D,
}

/// What one line of backend output becomes on its way to the UI.
pub enum Notification<D> {
    /// A structured event, sent on the event channel.
    Event(BackendEvent<D>),
    /// The raw line, sent on the log channel.
    Log(String),
}

/// The channel that `n` is sent on.
pub open spec fn channel_of<D>(n: Notification<D>) -> Seq<char> {
    match n {
        Notification::Event(_) => EVENT_CHANNEL@,
        Notification::Log(_) => LOG_CHANNEL@,
    }
}

/// The notification for the output line `line`, given what reading it as an
/// event record gave: the record itself when the line was one, the raw line
/// for the log channel otherwise.
pub open spec fn notification_for<D>(line: String, record: Option<BackendEvent<D>>) -> Notification<D> {
    match record {
        Some(ev) => Notification::Event(ev),
        None => Notification::Log(line),
    }
}

impl<D> Notification<D> {
    /// The channel this notification is sent on.
    pub fn channel(&self) -> (r: &'static str)
        ensures
            r@ == channel_of(*self),
    {
        match self {
            Notification::Event(_) => EVENT_CHANNEL,
            Notification::Log(_) => LOG_CHANNEL,
        }
    }
}

/// Turns one line of backend output into the one notification it gives:
/// `record` is the line read as an event record (`None` when the line is not
/// a JSON object with a string `event` and a `data` field, which includes
/// empty lines and plain text).
pub fn forward_line<D>(line: String, record: Option<BackendEvent<D>>) -> (n: Notification<D>)
    ensures
        n == notification_for(line, record),
        record is Some ==> channel_of(n) == EVENT_CHANNEL@ && n == Notification::Event(record->0),
        record is None ==> channel_of(n) == LOG_CHANNEL@ && n == Notification::<D>::Log(line),
{
    match record {
        Some(ev) => Notification::Event(ev),
        None => Notification::Log(line),
    }
}

/// Every output line gives exactly one notification: a line read as an event
/// record goes out on the event channel carrying that record's name and
/// value, and on no other channel; any other line goes out unchanged on the
/// log channel.
pub proof fn lemma_one_notification_per_line<D>(line: String, record: Option<BackendEvent<D>>)
    ensures
        EVENT_CHANNEL@ != LOG_CHANNEL@,
        record matches Some(ev) ==> notification_for(line, record) matches Notification::Event(out)
            && out.event == ev.event && out.data == ev.data
            && channel_of(notification_for(line, record)) == EVENT_CHANNEL@,
        record is None ==> notification_for(line, record) == Notification::<D>::Log(line)
            && channel_of(notification_for(line, record)) == LOG_CHANNEL@,
{
    reveal_strlit("python-event");
    reveal_strlit("python-log");
    assert(EVENT_CHANNEL@[7] != LOG_CHANNEL@[7]);
}

} // verus!
