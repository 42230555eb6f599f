//! Deciding which debounced directory events mean that the watched
//! configuration changed.
//!
//! The parent directory is watched, not the file: an orchestrator that swaps a
//! mounted volume or repoints a symlink never touches the file's own name. So
//! an event counts when it writes the file's name directly, or when the name
//! now resolves to another real path than the one last recorded.
use vstd::prelude::*;

verus! {

/// The kind of change that an event reports.
#[derive(PartialEq, Eq, Structural, Clone, Copy, Debug)]
pub enum ChangeKind {
    Create,
    Modify,
    Remove,
    Other,
}

/// One debounced event for one path, together with what the watched file's
/// name resolved to when the event was examined (`None` when it did not
/// resolve, as in the middle of an atomic replace).
#[derive(Debug)]
pub struct FsEvent {
    pub kind: ChangeKind,
    pub path: String,
    pub target: Option<String>,
}

/// The mathematical form of an [`FsEvent`].
pub struct FsEventView {
    pub kind: ChangeKind,
    pub path: Seq<char>,
    pub target: Option<Seq<char>>,
}

impl View for FsEvent {
    type V = FsEventView;

    open spec fn view(&self) -> FsEventView {
        FsEventView { kind: self.kind, path: self.path@, target: self.target.deep_view() }
    }
}

/// What one event meant.
#[derive(PartialEq, Eq, Structural, Clone, Copy, Debug)]
pub enum Verdict {
    /// The configuration must be read again.
    Relevant,
    /// Something was removed while the watched name did not resolve.
    TargetMissing,
    /// Directory churn that does not concern the configuration.
    Ignored,
}

/// What one batch meant: whether to read the configuration again (once, however
/// many of its events were relevant), and whether the watched name was found
/// missing after a removal.
#[derive(PartialEq, Eq, Structural, Clone, Copy, Debug)]
pub struct BatchReport {
    pub reload: bool,
    pub target_missing: bool,
}

/// The real path that an event observed, if the name resolved to a non-empty one.
pub open spec fn resolved(e: FsEventView) -> Option<Seq<char>> {
    match e.target {
        Some(t) => if t.len() > 0 { Some(t) } else { None },
        None => None,
    }
}

/// Whether an event means that the configuration changed, given the watched
/// file's path and the real path recorded for it.
pub open spec fn is_relevant(file: Seq<char>, recorded: Seq<char>, e: FsEventView) -> bool {
    ||| e.path == file && (e.kind == ChangeKind::Create || e.kind == ChangeKind::Modify)
    ||| resolved(e) matches Some(t) && t != recorded
}

/// Whether an event is a removal seen while the watched name did not resolve.
pub open spec fn is_target_missing(e: FsEventView) -> bool {
    e.kind == ChangeKind::Remove && resolved(e) is None
}

/// What one event means, judged against the real path recorded when it comes.
pub open spec fn verdict_of(file: Seq<char>, recorded: Seq<char>, e: FsEventView) -> Verdict {
    if is_relevant(file, recorded, e) {
        Verdict::Relevant
    } else if is_target_missing(e) {
        Verdict::TargetMissing
    } else {
        Verdict::Ignored
    }
}

/// The real path recorded after an event: the freshly resolved one when the
/// event is relevant and the name resolved, the previous one otherwise.
pub open spec fn target_after_event(file: Seq<char>, recorded: Seq<char>, e: FsEventView) -> Seq<char> {
    if is_relevant(file, recorded, e) && resolved(e) is Some {
        resolved(e)->0
    } else {
        recorded
    }
}

/// The real path recorded after a batch, its events taken in order.
pub open spec fn target_after(file: Seq<char>, recorded: Seq<char>, events: Seq<FsEventView>) -> Seq<char>
    decreases events.len(),
{
    if events.len() == 0 {
        recorded
    } else {
        target_after_event(file, target_after(file, recorded, events.drop_last()), events.last())
    }
}

/// Whether some event of a batch is relevant, each judged against the real
/// path recorded when it comes.
pub open spec fn batch_triggers(file: Seq<char>, recorded: Seq<char>, events: Seq<FsEventView>) -> bool
    decreases events.len(),
{
    if events.len() == 0 {
        false
    } else {
        batch_triggers(file, recorded, events.drop_last())
            || is_relevant(file, target_after(file, recorded, events.drop_last()), events.last())
    }
}

/// Whether some event of a batch is a removal seen while the name did not resolve.
pub open spec fn batch_target_missing(events: Seq<FsEventView>) -> bool {
    exists|i: int| 0 <= i < events.len() && is_target_missing(#[trigger] events[i])
}

/// Removals alone change nothing: a batch whose every event is a removal seen
/// while the watched name did not resolve asks for no reload and keeps the
/// recorded real path.
pub proof fn lemma_removals_alone_do_not_trigger(file: Seq<char>, recorded: Seq<char>, events: Seq<FsEventView>)
    requires
        forall|i: int| 0 <= i < events.len() ==> is_target_missing(#[trigger] events[i]),
    ensures
        !batch_triggers(file, recorded, events),
        target_after(file, recorded, events) == recorded,
    decreases events.len(),
{
    if events.len() > 0 {
        let rest = events.drop_last();
        assert forall|i: int| 0 <= i < rest.len() implies is_target_missing(#[trigger] rest[i]) by {
            assert(rest[i] == events[i]);
        }
        lemma_removals_alone_do_not_trigger(file, recorded, rest);
        assert(is_target_missing(events[events.len() - 1]));
    }
}

/// A moved target is a change: when the last event of a batch sees the watched
/// name resolve to another real path than the one recorded before it, the batch
/// asks for a reload and records that path, whatever path the event names.
pub proof fn lemma_new_target_triggers(file: Seq<char>, recorded: Seq<char>, events: Seq<FsEventView>)
    requires
        events.len() > 0,
        resolved(events.last()) is Some,
        resolved(events.last())->0 != target_after(file, recorded, events.drop_last()),
    ensures
        batch_triggers(file, recorded, events),
        target_after(file, recorded, events) == resolved(events.last())->0,
{
}

/// The detector's state: the watched file's absolute path, fixed for its
/// lifetime, and the real path that the name was last seen to resolve to.
pub struct DetectorView {
    pub file: Seq<char>,
    pub target: Seq<char>,
}

/// Tracks the canonical identity of the watched file and classifies events.
pub struct ChangeDetector {
    file: String,
    target: String,
}

impl View for ChangeDetector {
    type V = DetectorView;

    closed spec fn view(&self) -> DetectorView {
        DetectorView { file: self.file@, target: self.target@ }
    }
}

impl ChangeDetector {
    /// A detector for `file`, whose name currently resolves to `target`.
    pub fn new(file: String, target: String) -> (r: ChangeDetector)
        ensures
            r@ == (DetectorView { file: file@, target: target@ }),
    {
        ChangeDetector { file, target }
    }

    /// The watched file's absolute path.
    pub fn file(&self) -> (r: &str)
        ensures
            r@ == self@.file,
    {
        self.file.as_str()
    }

    /// The real path last recorded for the watched file.
    pub fn target(&self) -> (r: &str)
        ensures
            r@ == self@.target,
    {
        self.target.as_str()
    }

    /// Classifies one event and records the real path it observed when it is relevant.
    pub fn observe(&mut self, e: &FsEvent) -> (r: Verdict)
        ensures
            r == verdict_of(old(self)@.file, old(self)@.target, e@),
            final(self)@ == (DetectorView {
                file: old(self)@.file,
                target: target_after_event(old(self)@.file, old(self)@.target, e@),
            }),
    {
        let names_file = e.path == self.file && (e.kind == ChangeKind::Create || e.kind
            == ChangeKind::Modify);
        let fresh: Option<&String> = match &e.target {
            Some(t) => if t.as_str().unicode_len() > 0 {
                Some(t)
            } else {
                None
            },
            None => None,
        };
        let moved = match fresh {
            Some(t) => *t != self.target,
            None => false,
        };
        if names_file || moved {
            if let Some(t) = fresh {
                self.target = t.clone();
            }
            Verdict::Relevant
        } else if e.kind == ChangeKind::Remove && fresh.is_none() {
            Verdict::TargetMissing
        } else {
            Verdict::Ignored
        }
    }

    /// Classifies a batch, event by event, and reports it as one decision.
    pub fn observe_batch(&mut self, events: &Vec<FsEvent>) -> (r: BatchReport)
        ensures
            final(self)@.file == old(self)@.file,
            final(self)@.target == target_after(old(self)@.file, old(self)@.target, events@.map_values(|e: FsEvent| e@)),
            r.reload == batch_triggers(old(self)@.file, old(self)@.target, events@.map_values(|e: FsEvent| e@)),
            r.target_missing == batch_target_missing(events@.map_values(|e: FsEvent| e@)),
    {
        let ghost start = self@;
        let ghost evs = events@.map_values(|e: FsEvent| e@);
        let mut reload = false;
        let mut target_missing = false;
        let mut i: usize = 0;
        while i < events.len()
            invariant
                i <= events.len(),
                evs == events@.map_values(|e: FsEvent| e@),
                self@.file == start.file,
                self@.target == target_after(start.file, start.target, evs.take(i as int)),
                reload == batch_triggers(start.file, start.target, evs.take(i as int)),
                target_missing == batch_target_missing(evs.take(i as int)),
            decreases events.len() - i,
        {
            let ghost before = evs.take(i as int);
            let ghost after = evs.take(i + 1);
            assert(after.drop_last() == before);
            assert(after.last() == events[i as int]@);
            let v = self.observe(&events[i]);
            if v == Verdict::Relevant {
                reload = true;
            }
            if v == Verdict::TargetMissing {
                target_missing = true;
            }
            proof {
                if target_missing {
                    if !batch_target_missing(before) {
                        assert(is_target_missing(after[i as int]));
                    }
                } else {
                    assert forall|k: int| 0 <= k < after.len() implies !is_target_missing(
                        #[trigger] after[k],
                    ) by {
                        if k < i {
                            assert(after[k] == before[k]);
                        }
                    }
                }
                if batch_target_missing(before) {
                    let k = choose|k: int| 0 <= k < before.len() && is_target_missing(#[trigger] before[k]);
                    assert(after[k] == before[k]);
                }
            }
            i = i + 1;
        }
        assert(evs.take(events.len() as int) == evs);
        BatchReport { reload, target_missing }
    }
}

} // verus!
