//! Events as the coordinator sees them, and the queue that orders them.

use vstd::prelude::*;

verus! {

/// A signal delivered to the watching process.
#[derive(Debug, Clone, Copy, PartialEq, Eq, Structural)]
pub enum Signal {
    Hangup,
    ForceStop,
    Interrupt,
    Quit,
    Terminate,
    User1,
    User2,
    Custom(i32),
}

/// How an event is queued: urgent events overtake normal ones.
#[derive(Debug, Clone, Copy, PartialEq, Eq, Structural)]
pub enum Priority {
    Normal,
    Urgent,
}

/// One notification: the paths that changed, the signals that arrived, and
/// the priority it travels with. An event with neither paths nor signals is
/// the start trigger.
#[derive(Debug)]
pub struct Event {
    pub paths: Vec<String>,
    pub signals: Vec<Signal>,
    pub priority: Priority,
}

impl Event {
    /// Whether this is the start trigger: no paths and no signals.
    pub open spec fn is_start(&self) -> bool {
        self.paths@.len() == 0 && self.signals@.len() == 0
    }

    /// Whether the event carries a signal.
    pub open spec fn has_signal(&self) -> bool {
        self.signals@.len() > 0
    }

    /// Whether the event carries a path outside `excluded`.
    pub open spec fn has_included_path(&self, excluded: Set<Seq<char>>) -> bool {
        exists|j: int| 0 <= j < self.paths@.len() && !excluded.contains(#[trigger] self.paths@[j]@)
    }

    /// Whether the event asks for a rebuild under a filter that rejects
    /// `excluded`: it is the start trigger, or one of its paths is included.
    pub open spec fn triggers(&self, excluded: Set<Seq<char>>) -> bool {
        self.is_start() || self.has_included_path(excluded)
    }

    /// The start trigger. It travels urgently.
    pub fn start() -> (event: Event)
        ensures
            event.is_start(),
            event.priority == Priority::Urgent,
    {
        Event { paths: Vec::new(), signals: Vec::new(), priority: Priority::Urgent }
    }

    /// A change of `paths`, at normal priority.
    pub fn changed(paths: Vec<String>) -> (event: Event)
        ensures
            event.paths == paths,
            event.signals@.len() == 0,
            event.priority == Priority::Normal,
    {
        Event { paths, signals: Vec::new(), priority: Priority::Normal }
    }

    /// What the coordinator makes of an observation. `paths` and `signals`
    /// are what the observation carries of each; `other` says whether it
    /// carries anything else, such as a keystroke.
    ///
    /// An observation with a signal travels urgently. One with paths and no
    /// signal travels normally. One that carries nothing at all is the start
    /// trigger, which travels urgently. One that carries only other things
    /// is of no concern to the coordinator.
    pub open spec fn of_observation(
        paths: Vec<String>,
        signals: Vec<Signal>,
        other: bool,
    ) -> Option<Event> {
        if signals@.len() > 0 {
            Some(Event { paths, signals, priority: Priority::Urgent })
        } else if paths@.len() > 0 {
            Some(Event { paths, signals, priority: Priority::Normal })
        } else if !other {
            Some(Event { paths, signals, priority: Priority::Urgent })
        } else {
            None
        }
    }

    /// Turns an observation of the watcher into an event, or into `None`
    /// where it does not concern the coordinator.
    pub fn observed(paths: Vec<String>, signals: Vec<Signal>, other: bool) -> (event: Option<Event>)
        ensures
            event == Self::of_observation(paths, signals, other),
            event matches Some(e) ==> (e.is_start() <==> paths@.len() == 0 && signals@.len() == 0
                && !other),
    {
        if signals.len() > 0 {
            Some(Event { paths, signals, priority: Priority::Urgent })
        } else if paths.len() > 0 {
            Some(Event { paths, signals, priority: Priority::Normal })
        } else if !other {
            Some(Event { paths, signals, priority: Priority::Urgent })
        } else {
            None
        }
    }

    /// The arrival of `signal`, at urgent priority.
    pub fn signalled(signal: Signal) -> (event: Event)
        ensures
            event.paths@.len() == 0,
            event.signals@ == seq![signal],
            event.priority == Priority::Urgent,
    {
        let mut signals: Vec<Signal> = Vec::new();
        signals.push(signal);
        Event { paths: Vec::new(), signals, priority: Priority::Urgent }
    }
}

/// The events waiting for the coordinator. Urgent events are served before
/// normal ones; events of one priority are served in their order of arrival.
pub struct EventQueue {
    urgent: Vec<Event>,
    normal: Vec<Event>,
}

impl EventQueue {
    /// The waiting urgent events, oldest first.
    pub closed spec fn urgent_lane(&self) -> Seq<Event> {
        self.urgent@
    }

    /// The waiting normal events, oldest first.
    pub closed spec fn normal_lane(&self) -> Seq<Event> {
        self.normal@
    }

    /// The waiting events in the order in which they will be served.
    pub open spec fn pending(&self) -> Seq<Event> {
        self.urgent_lane() + self.normal_lane()
    }

    /// Every event waits in the lane of its priority. An empty queue starts
    /// that way and every operation keeps it so.
    pub open spec fn wf(&self) -> bool {
        &&& forall|i: int|
            0 <= i < self.urgent_lane().len() ==> (#[trigger] self.urgent_lane()[i]).priority
                == Priority::Urgent
        &&& forall|i: int|
            0 <= i < self.normal_lane().len() ==> (#[trigger] self.normal_lane()[i]).priority
                == Priority::Normal
    }

    /// An empty queue.
    pub fn new() -> (queue: EventQueue)
        ensures
            queue.wf(),
            queue.urgent_lane() == Seq::<Event>::empty(),
            queue.normal_lane() == Seq::<Event>::empty(),
    {
        EventQueue { urgent: Vec::new(), normal: Vec::new() }
    }

    /// Whether no event waits.
    pub fn is_empty(&self) -> (empty: bool)
        ensures
            empty == (self.pending().len() == 0),
    {
        self.urgent.len() == 0 && self.normal.len() == 0
    }

    /// Adds an event behind the waiting events of its priority.
    pub fn push(&mut self, event: Event)
        ensures
            old(self).wf() ==> final(self).wf(),
            event.priority == Priority::Urgent ==> {
                &&& final(self).urgent_lane() == old(self).urgent_lane().push(event)
                &&& final(self).normal_lane() == old(self).normal_lane()
            },
            event.priority == Priority::Normal ==> {
                &&& final(self).urgent_lane() == old(self).urgent_lane()
                &&& final(self).normal_lane() == old(self).normal_lane().push(event)
            },
    {
        match event.priority {
            Priority::Urgent => self.urgent.push(event),
            Priority::Normal => self.normal.push(event),
        }
    }

    /// Takes the next event to serve: the oldest urgent one, or with none
    /// waiting the oldest normal one, or `None` from an empty queue.
    pub fn pop(&mut self) -> (next: Option<Event>)
        ensures
            old(self).wf() ==> final(self).wf(),
            old(self).pending().len() == 0 ==> next.is_none() && final(self).pending() == old(
                self,
            ).pending(),
            old(self).pending().len() > 0 ==> {
                &&& next == Some(old(self).pending()[0])
                &&& final(self).pending() == old(self).pending().drop_first()
            },
            old(self).urgent_lane().len() > 0 ==> {
                &&& final(self).urgent_lane() == old(self).urgent_lane().drop_first()
                &&& final(self).normal_lane() == old(self).normal_lane()
            },
            old(self).urgent_lane().len() == 0 && old(self).normal_lane().len() > 0 ==> {
                &&& final(self).urgent_lane() == old(self).urgent_lane()
                &&& final(self).normal_lane() == old(self).normal_lane().drop_first()
            },
    {
        if self.urgent.len() > 0 {
            let event = self.urgent.remove(0);
            assert(self.urgent@ =~= old(self).urgent@.drop_first());
            assert(self.pending() =~= old(self).pending().drop_first());
            Some(event)
        } else if self.normal.len() > 0 {
            let event = self.normal.remove(0);
            assert(self.normal@ =~= old(self).normal@.drop_first());
            assert(self.pending() =~= old(self).pending().drop_first());
            Some(event)
        } else {
            None
        }
    }

    /// Takes every waiting event, in the order of service, and leaves the
    /// queue empty.
    pub fn drain(&mut self) -> (events: Vec<Event>)
        ensures
            final(self).wf(),
            events@ == old(self).pending(),
            final(self).pending().len() == 0,
    {
        let mut events: Vec<Event> = Vec::new();
        events.append(&mut self.urgent);
        events.append(&mut self.normal);
        events
    }
}

/// In a well-formed queue no normal event is served before an urgent one,
/// whatever the order in which the two arrived.
pub proof fn lemma_urgent_served_first(queue: EventQueue, i: int, j: int)
    requires
        queue.wf(),
        0 <= i < queue.pending().len(),
        0 <= j < queue.pending().len(),
        queue.pending()[i].priority == Priority::Urgent,
        queue.pending()[j].priority == Priority::Normal,
    ensures
        i < j,
{
}

} // verus!
