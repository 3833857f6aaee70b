//! The output tracker: accumulates a display output's description from a
//! burst of unordered descriptor events and publishes a consistent snapshot
//! only at the terminating synchronization event.

use vstd::prelude::*;
use vstd::string::StringExecFns;

use crate::error::ClientError;

verus! {

/// A display output's description: a name built from vendor and model, and
/// the active resolution.
#[derive(Debug, Clone)]
pub struct Output {
    /// Human-readable name, built as `vendor (model)`.
    pub name: String,
    /// The active mode's width in pixels.
    pub width: u32,
    /// The active mode's height in pixels.
    pub height: u32,
}

/// Spec-level value of an output description.
pub struct OutputModel {
    /// View of the name.
    pub name: Seq<char>,
    /// The active resolution.
    pub resolution: (u32, u32),
}

impl View for Output {
    type V = OutputModel;

    open spec fn view(&self) -> OutputModel {
        OutputModel { name: self.name@, resolution: (self.width, self.height) }
    }
}

impl Output {
    /// The active resolution.
    pub fn resolution(&self) -> (r: (u32, u32))
        ensures
            r == self@.resolution,
    {
        (self.width, self.height)
    }

    /// The human-readable name.
    pub fn name(&self) -> (r: String)
        ensures
            r@ == self.name@,
    {
        self.name.clone()
    }
}

/// A descriptor event of one output, as received from the server.
#[derive(Debug, Clone)]
pub enum OutputEvent {
    /// Carries the vendor and model text the name is built from.
    Geometry { make: String, model: String },
    /// Carries one supported mode; only the one flagged current supplies
    /// the active resolution.
    Mode { current: bool, width: u32, height: u32 },
    /// The terminating synchronization event: the description is now
    /// consistent and may be observed.
    Done,
    /// The output's scale factor.
    Scale { factor: i32 },
}

/// Spec-level value of a descriptor event.
pub enum OutputEventModel {
    /// Vendor and model text.
    Geometry { make: Seq<char>, model: Seq<char> },
    /// One supported mode.
    Mode { current: bool, width: u32, height: u32 },
    /// The synchronization boundary.
    Done,
    /// The scale factor.
    Scale { factor: i32 },
}

impl View for OutputEvent {
    type V = OutputEventModel;

    open spec fn view(&self) -> OutputEventModel {
        match self {
            OutputEvent::Geometry { make, model } => OutputEventModel::Geometry {
                make: make@,
                model: model@,
            },
            OutputEvent::Mode { current, width, height } => OutputEventModel::Mode {
                current: *current,
                width: *width,
                height: *height,
            },
            OutputEvent::Done => OutputEventModel::Done,
            OutputEvent::Scale { factor } => OutputEventModel::Scale { factor: *factor },
        }
    }
}

/// Accumulator of one output's description. Partial updates gather in
/// `pending`; only a `Done` event copies them into `published`, so an
/// observer never sees a half-updated description as consistent state.
#[derive(Debug, Clone)]
pub struct OutputTracker {
    /// The accumulating, possibly inconsistent description.
    pub pending: Output,
    /// The snapshot most recently published by a `Done` event.
    pub published: Option<Output>,
}

/// Spec-level value of the tracker.
pub struct OutputTrackerModel {
    /// The accumulating description.
    pub pending: OutputModel,
    /// The last published snapshot.
    pub published: Option<OutputModel>,
}

impl View for OutputTracker {
    type V = OutputTrackerModel;

    open spec fn view(&self) -> OutputTrackerModel {
        OutputTrackerModel {
            pending: self.pending@,
            published: match self.published {
                Some(o) => Some(o@),
                None => None,
            },
        }
    }
}

/// The name the tracker builds from vendor and model text.
pub open spec fn output_name(make: Seq<char>, model: Seq<char>) -> Seq<char> {
    make + " ("@ + model + ")"@
}

/// The transition function of the tracker: from a state and an event to
/// the next state, the snapshot published by this event if any, and
/// whether the event was accepted. A scale factor other than one is an
/// explicit unsupported-feature failure, never silently approximated,
/// since downstream pixel buffers are not scaled; it leaves the tracker
/// unchanged.
pub open spec fn output_step(t: OutputTrackerModel, e: OutputEventModel) -> (
    OutputTrackerModel,
    Option<OutputModel>,
    Result<(), ClientError>,
) {
    match e {
        OutputEventModel::Geometry { make, model } => (
            OutputTrackerModel {
                pending: OutputModel {
                    name: output_name(make, model),
                    resolution: t.pending.resolution,
                },
                ..t
            },
            None,
            Ok(()),
        ),
        OutputEventModel::Mode { current, width, height } => (
            if current {
                OutputTrackerModel {
                    pending: OutputModel { name: t.pending.name, resolution: (width, height) },
                    ..t
                }
            } else {
                t
            },
            None,
            Ok(()),
        ),
        OutputEventModel::Done => (
            OutputTrackerModel { published: Some(t.pending), ..t },
            Some(t.pending),
            Ok(()),
        ),
        OutputEventModel::Scale { factor } => if factor == 1 {
            (t, None, Ok(()))
        } else {
            (t, None, Err(ClientError::UnimplementedFeature))
        },
    }
}

/// Folds `output_step` over a whole event sequence, keeping the final
/// tracker state.
pub open spec fn output_run(t: OutputTrackerModel, es: Seq<OutputEventModel>) -> OutputTrackerModel
    decreases es.len(),
{
    if es.len() == 0 {
        t
    } else {
        output_run(output_step(t, es[0]).0, es.drop_first())
    }
}

impl OutputTracker {
    /// A tracker for a freshly bound output, with nothing accumulated and
    /// nothing published.
    pub fn new() -> (r: Self)
        ensures
            r@.pending.name == Seq::<char>::empty(),
            r@.pending.resolution == (0u32, 0u32),
            r@.published is None,
    {
        OutputTracker { pending: Output { name: String::new(), width: 0, height: 0 }, published: None }
    }

    /// Feeds one descriptor event into the tracker. Returns the snapshot
    /// this event published, if it was the terminating synchronization
    /// event; partial updates return nothing. A scale factor other than
    /// one is rejected as unimplemented and discarded, previous state
    /// retained.
    pub fn apply_event(&mut self, e: OutputEvent) -> (r: Result<Option<Output>, ClientError>)
        ensures
            final(self)@ == output_step(old(self)@, e@).0,
            r is Ok <==> output_step(old(self)@, e@).2 is Ok,
            r matches Ok(Some(o)) ==> output_step(old(self)@, e@).1 == Some(o@),
            r matches Ok(None) ==> output_step(old(self)@, e@).1 is None,
            r matches Err(er) ==> Err::<(), ClientError>(er) == output_step(old(self)@, e@).2
                && *final(self) == *old(self),
    {
        match e {
            OutputEvent::Geometry { make, model } => {
                let name = make.concat(" (").concat(model.as_str()).concat(")");
                self.pending.name = name;
                Ok(None)
            },
            OutputEvent::Mode { current, width, height } => {
                if current {
                    self.pending.width = width;
                    self.pending.height = height;
                }
                Ok(None)
            },
            OutputEvent::Done => {
                let snapshot = Output {
                    name: self.pending.name.clone(),
                    width: self.pending.width,
                    height: self.pending.height,
                };
                self.published = Some(
                    Output {
                        name: self.pending.name.clone(),
                        width: self.pending.width,
                        height: self.pending.height,
                    },
                );
                Ok(Some(snapshot))
            },
            OutputEvent::Scale { factor } => {
                if factor == 1 {
                    Ok(None)
                } else {
                    Err(ClientError::UnimplementedFeature)
                }
            },
        }
    }
}

/// An output snapshot is published only at its terminating synchronization
/// event: any run of descriptor events containing no `Done` — however many
/// geometry and mode events, in whatever order — leaves the published
/// snapshot exactly as it was.
pub proof fn lemma_publish_only_on_done(t: OutputTrackerModel, es: Seq<OutputEventModel>)
    requires
        forall|i: int| 0 <= i < es.len() ==> !((#[trigger] es[i]) is Done),
    ensures
        output_run(t, es).published == t.published,
    decreases es.len(),
{
    if es.len() > 0 {
        assert(forall|i: int| 0 <= i < es.drop_first().len() ==> !((#[trigger] es.drop_first()[i])
            is Done)) by {
            assert(forall|i: int|
                0 <= i < es.drop_first().len() ==> es.drop_first()[i] == es[i + 1]);
        }
        lemma_publish_only_on_done(output_step(t, es[0]).0, es.drop_first());
    }
}

/// What a `Done` event publishes is exactly the description accumulated so
/// far, whatever events built it.
pub proof fn lemma_done_publishes_accumulated(t: OutputTrackerModel, es: Seq<OutputEventModel>)
    ensures
        output_step(output_run(t, es), OutputEventModel::Done).1 == Some(
            output_run(t, es).pending,
        ),
        output_step(output_run(t, es), OutputEventModel::Done).0.published == Some(
            output_run(t, es).pending,
        ),
{
}

/// Manager of the output globals. This layer accepts a single output;
/// additional advertisements are ignored — a documented limitation, not a
/// full multi-output model.
#[derive(Debug, Clone)]
pub struct WlOutputManager {
    /// The one tracked output, once an output global was accepted.
    pub output: Option<OutputTracker>,
}

impl WlOutputManager {
    /// A manager with no output accepted yet.
    pub fn new() -> (r: Self)
        ensures
            r.output is None,
    {
        WlOutputManager { output: None }
    }

    /// Accepts the first advertised output and ignores the rest. Returns
    /// whether the advertisement was accepted.
    pub fn new_global(&mut self) -> (r: bool)
        ensures
            old(self).output is None ==> r && (final(self).output matches Some(t) && t@
                == OutputTracker::new_model()),
            old(self).output is Some ==> !r && *final(self) == *old(self),
    {
        match self.output {
            None => {
                self.output = Some(OutputTracker::new());
                true
            },
            Some(_) => false,
        }
    }
}

impl OutputTracker {
    /// The spec-level state of a fresh tracker.
    pub open spec fn new_model() -> OutputTrackerModel {
        OutputTrackerModel {
            pending: OutputModel { name: Seq::<char>::empty(), resolution: (0u32, 0u32) },
            published: None,
        }
    }
}

} // verus!
