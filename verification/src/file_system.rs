use vstd::prelude::*;
use crate::error::AsyncListenerError;

verus! {

/// The canonical taxonomy of filesystem changes a consumer can observe.
#[derive(Debug, Clone, Copy, PartialEq, Eq, Structural)]
pub enum FileEventKind {
    Created,
    Modified,
    Deleted,
    Renamed,
}

/// One typed filesystem event: the path it concerns and what happened to
/// it. Created fresh for every translated notification, never mutated,
/// and handed off to the consumer on yield.
#[derive(Debug)]
pub struct FileEvent {
    pub path: String,
    pub kind: FileEventKind,
}

/// The kind of a raw change notification as the underlying watch
/// mechanism reports it, held as a plain value.
#[derive(Debug, Clone, Copy, PartialEq, Eq, Structural)]
pub enum RawEventKind {
    Create,
    Modify,
    Remove,
    Rename,
    Access,
    Other,
}

/// One raw change notification: its kind and the paths it names.
#[derive(Debug)]
pub struct RawNotification {
    pub kind: RawEventKind,
    pub paths: Vec<String>,
}

/// How each raw kind maps into the canonical taxonomy. Access
/// notifications and kinds outside the recognized set carry no mapping:
/// they are skipped, not yielded.
pub open spec fn classify_kind(raw: RawEventKind) -> Option<FileEventKind> {
    match raw {
        RawEventKind::Create => Some(FileEventKind::Created),
        RawEventKind::Modify => Some(FileEventKind::Modified),
        RawEventKind::Remove => Some(FileEventKind::Deleted),
        RawEventKind::Rename => Some(FileEventKind::Renamed),
        RawEventKind::Access => None,
        RawEventKind::Other => None,
    }
}

/// A notification translates to an event only when its kind is recognized
/// and it names at least one path.
pub open spec fn translatable(n: RawNotification) -> bool {
    classify_kind(n.kind) is Some && n.paths@.len() > 0
}

/// The typed event a translatable notification becomes: its first path,
/// under the classified kind.
pub open spec fn event_of(n: RawNotification) -> FileEvent
    recommends
        translatable(n),
{
    FileEvent { path: n.paths@[0], kind: classify_kind(n.kind)->0 }
}

/// The diagnostic yielded for a recognized notification that names no
/// path at all.
pub open spec fn missing_path_message() -> Seq<char> {
    "change notification carried no path"@
}

/// What one step of the bridge does, as seen by the consumer: deliver one
/// item, deliver nothing and go on, or end the sequence.
#[derive(Debug)]
pub enum FsOutput {
    Deliver(Result<FileEvent, AsyncListenerError>),
    Skip,
    End,
}

/// Translate one raw notification. Unrecognized kinds are skipped —
/// no yield, no error. A recognized notification that names no path is a
/// translation failure, surfaced as one classified filesystem error that
/// does not end the sequence. Every other notification becomes exactly
/// one typed event: no coalescing, no duplication.
pub fn translate_notification(n: RawNotification) -> (r: FsOutput)
    ensures
        classify_kind(n.kind) is None ==> r is Skip,
        (classify_kind(n.kind) is Some && n.paths@.len() == 0) ==> (
            r matches FsOutput::Deliver(item) && item matches Err(e)
                && e is FileSystemError && e.spec_message() == missing_path_message()
        ),
        translatable(n) ==> r == FsOutput::Deliver(Ok::<FileEvent, AsyncListenerError>(event_of(n))),
{
    let kind = match n.kind {
        RawEventKind::Create => FileEventKind::Created,
        RawEventKind::Modify => FileEventKind::Modified,
        RawEventKind::Remove => FileEventKind::Deleted,
        RawEventKind::Rename => FileEventKind::Renamed,
        RawEventKind::Access => {
            return FsOutput::Skip;
        }
        RawEventKind::Other => {
            return FsOutput::Skip;
        }
    };
    if n.paths.len() == 0 {
        FsOutput::Deliver(Err(AsyncListenerError::file_system_error(
            "change notification carried no path",
        )))
    } else {
        let path = n.paths[0].clone();
        FsOutput::Deliver(Ok(FileEvent { path, kind }))
    }
}

/// The typed events a sequence of raw notifications translates to, in
/// delivery order: each translatable notification contributes exactly its
/// own event, every other notification contributes nothing.
pub open spec fn translated_events(notifs: Seq<RawNotification>) -> Seq<FileEvent>
    decreases notifs.len(),
{
    if notifs.len() == 0 {
        Seq::empty()
    } else if translatable(notifs.last()) {
        translated_events(notifs.drop_last()).push(event_of(notifs.last()))
    } else {
        translated_events(notifs.drop_last())
    }
}

/// Translation never reorders: the events of one run of notifications
/// followed by another are the events of the first followed by the events
/// of the second. In particular, an event for a later notification never
/// precedes one for an earlier notification — a deletion reported after a
/// creation is yielded after it.
pub proof fn lemma_translation_keeps_order(a: Seq<RawNotification>, b: Seq<RawNotification>)
    ensures
        translated_events(a + b) == translated_events(a) + translated_events(b),
    decreases b.len(),
{
    if b.len() == 0 {
        assert(a + b =~= a);
        assert(translated_events(a) + translated_events(b) =~= translated_events(a));
    } else {
        lemma_translation_keeps_order(a, b.drop_last());
        assert((a + b).drop_last() =~= a + b.drop_last());
        assert((a + b).last() == b.last());
        if translatable(b.last()) {
            assert(translated_events(a) + translated_events(b) =~= (translated_events(a)
                + translated_events(b.drop_last())).push(event_of(b.last())));
        }
    }
}

/// No coalescing and no duplication: a run of notifications never
/// translates to more events than there were notifications — each event
/// corresponds to exactly one underlying notification.
pub proof fn lemma_no_duplication(notifs: Seq<RawNotification>)
    ensures
        translated_events(notifs).len() <= notifs.len(),
    decreases notifs.len(),
{
    if notifs.len() > 0 {
        lemma_no_duplication(notifs.drop_last());
    }
}

/// Creations are never lost: notifications that all announce created
/// paths translate to exactly one `Created` event each, in the order the
/// notifications arrived — so creating files under a watched directory
/// yields at least as many `Created` events as notifications delivered,
/// one per file, under that file's own path.
pub proof fn lemma_creations_all_translated(notifs: Seq<RawNotification>)
    requires
        forall|i: int|
            0 <= i < notifs.len() ==> (notifs[i].kind is Create && notifs[i].paths@.len() > 0),
    ensures
        translated_events(notifs).len() == notifs.len(),
        forall|i: int|
            0 <= i < notifs.len() ==> #[trigger] translated_events(notifs)[i]
                == event_of(notifs[i]),
        forall|i: int|
            0 <= i < notifs.len() ==> (#[trigger] translated_events(notifs)[i].kind
                is Created && translated_events(notifs)[i].path == notifs[i].paths@[0]),
    decreases notifs.len(),
{
    if notifs.len() > 0 {
        lemma_creations_all_translated(notifs.drop_last());
        assert(translatable(notifs.last()));
        assert(forall|i: int|
            0 <= i < notifs.len() - 1 ==> #[trigger] notifs.drop_last()[i] == notifs[i]);
    }
}

/// Where the bridge stands in its lifecycle.
#[derive(Debug, Clone, Copy, PartialEq, Eq, Structural)]
pub enum FsBridgeState {
    Uninitialized,
    Watching,
    Ended,
}

/// What the outside world hands the bridge on one step: the outcome of
/// the watch setup, one delivered notification or delivery failure, or
/// the closing of the delivery channel.
#[derive(Debug)]
pub enum FsInput {
    WatchFailed(String),
    WatchEstablished,
    Notification(RawNotification),
    DeliveryError(String),
    ChannelClosed,
}

/// The bridge from raw watch notifications to a typed event sequence.
///
/// Lifecycle: `Uninitialized` until the recursive watch is established;
/// `Watching` while notifications are drained, translated and yielded one
/// by one; `Ended` once the watch setup has failed or the delivery
/// channel has closed. A setup failure yields exactly one error and ends
/// the sequence; a per-notification failure yields one error and the
/// sequence continues; nothing is ever yielded before the watch is
/// established, and an ended bridge stays ended.
pub struct FsBridge {
    pub state: FsBridgeState,
}

impl FsBridge {
    /// A fresh bridge, before any watch has been attempted.
    pub fn new() -> (r: Self)
        ensures
            r.state is Uninitialized,
    {
        FsBridge { state: FsBridgeState::Uninitialized }
    }

    /// Advance the bridge by one input and decide what the consumer sees.
    pub fn step(&mut self, input: FsInput) -> (r: FsOutput)
        ensures
            // Setup failure: one classified filesystem error, then the end.
            old(self).state is Uninitialized ==> (input matches FsInput::WatchFailed(m) ==> (
                final(self).state is Ended
                    && (r matches FsOutput::Deliver(item) && item matches Err(e)
                        && e is FileSystemError && e.spec_message() == m@)
            )),
            // Successful setup: start draining, nothing yielded yet.
            (old(self).state is Uninitialized && input is WatchEstablished) ==> (
                final(self).state is Watching && r is Skip
            ),
            // Steady state: each notification is translated on its own,
            // exactly as `translate_notification` does.
            old(self).state is Watching ==> (input matches FsInput::Notification(n) ==> (
                final(self).state is Watching
                    && (classify_kind(n.kind) is None ==> r is Skip)
                    && ((classify_kind(n.kind) is Some && n.paths@.len() == 0) ==> (
                        r matches FsOutput::Deliver(item) && item matches Err(e)
                            && e is FileSystemError
                            && e.spec_message() == missing_path_message()))
                    && (translatable(n) ==> r == FsOutput::Deliver(
                        Ok::<FileEvent, AsyncListenerError>(event_of(n))))
            )),
            // A delivery failure is yielded inline; the sequence continues.
            old(self).state is Watching ==> (input matches FsInput::DeliveryError(m) ==> (
                final(self).state is Watching
                    && (r matches FsOutput::Deliver(item) && item matches Err(e)
                        && e is FileSystemError && e.spec_message() == m@)
            )),
            // The delivery channel closing is always fatal.
            (input is ChannelClosed) ==> (
                final(self).state is Ended && r is End
            ),
            // An ended bridge stays ended and yields nothing further.
            (old(self).state is Ended) ==> (
                final(self).state is Ended && r is End
            ),
            // Nothing is ever yielded before the watch is established.
            (old(self).state is Uninitialized) ==> !(r matches FsOutput::Deliver(item2)
                && item2 is Ok),
            // Inputs that make no sense for the current state change nothing
            // and yield nothing.
            (old(self).state is Uninitialized
                && (input matches FsInput::Notification(_) || input matches FsInput::DeliveryError(_))) ==> (
                final(self).state is Uninitialized && r is Skip
            ),
            (old(self).state is Watching
                && (input matches FsInput::WatchFailed(_) || input is WatchEstablished)) ==> (
                final(self).state is Watching && r is Skip
            ),
    {
        match self.state {
            FsBridgeState::Uninitialized => {
                match input {
                    FsInput::WatchFailed(m) => {
                        self.state = FsBridgeState::Ended;
                        FsOutput::Deliver(Err(AsyncListenerError::file_system_error(m.as_str())))
                    }
                    FsInput::WatchEstablished => {
                        self.state = FsBridgeState::Watching;
                        FsOutput::Skip
                    }
                    FsInput::Notification(_) => FsOutput::Skip,
                    FsInput::DeliveryError(_) => FsOutput::Skip,
                    FsInput::ChannelClosed => {
                        self.state = FsBridgeState::Ended;
                        FsOutput::End
                    }
                }
            }
            FsBridgeState::Watching => {
                match input {
                    FsInput::WatchFailed(_) => FsOutput::Skip,
                    FsInput::WatchEstablished => FsOutput::Skip,
                    FsInput::Notification(n) => translate_notification(n),
                    FsInput::DeliveryError(m) => {
                        FsOutput::Deliver(Err(AsyncListenerError::file_system_error(m.as_str())))
                    }
                    FsInput::ChannelClosed => {
                        self.state = FsBridgeState::Ended;
                        FsOutput::End
                    }
                }
            }
            FsBridgeState::Ended => FsOutput::End,
        }
    }
}

} // verus!
