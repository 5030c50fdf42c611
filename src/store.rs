use vstd::prelude::*;

use crate::interview::{Completion, CompletionView};
use crate::model::{Monitor, MonitorView};

verus! {

/// The monitor that a completed interview becomes once its post is
/// `message_id`.
pub open spec fn monitor_of(c: CompletionView, message_id: u64) -> MonitorView {
    MonitorView {
        channel_id: c.channel_id,
        guild_id: c.guild_id,
        message_id,
        reactions: c.reactions,
    }
}

/// The store of monitored posts, in the order they were completed.
pub struct MonitorManager {
    monitors: Vec<Monitor>,
}

impl View for MonitorManager {
    type V = Seq<MonitorView>;

    closed spec fn view(&self) -> Seq<MonitorView> {
        self.monitors@.map_values(|m: Monitor| m@)
    }
}

impl MonitorManager {
    /// A store holding `monitors`, as read back from durable storage.
    pub fn from_monitors(monitors: Vec<Monitor>) -> (r: Self)
        ensures
            r@ == monitors@.map_values(|m: Monitor| m@),
    {
        MonitorManager { monitors }
    }

    /// The monitors, in order, for writing to durable storage.
    pub fn monitors(&self) -> (r: &Vec<Monitor>)
        ensures
            r@.map_values(|m: Monitor| m@) == self@,
    {
        &self.monitors
    }

    /// The number of monitors.
    pub fn len(&self) -> (r: usize)
        ensures
            r == self@.len(),
    {
        self.monitors.len()
    }

    /// Appends the monitor of a completed interview whose post is `message_id`.
    pub fn record(&mut self, c: &Completion, message_id: u64)
        ensures
            final(self)@ == old(self)@.push(monitor_of(c@, message_id)),
    {
        let m = Monitor::new(c.channel_id, c.guild_id, message_id, &c.reactions);
        self.monitors.push(m);
        assert(self@ =~= old(self)@.push(monitor_of(c@, message_id)));
    }
}

} // verus!
