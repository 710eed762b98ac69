//! The order of the stages of one classification, and how a run ends.
//!
//! The library decides, a driver acts. `start` hands out the first action.
//! The driver performs it and reports what happened as an event; `step` takes
//! the event and hands out the next action. The stages follow one another
//! without a way back: decode, resize, write the debug copy if one is asked
//! for, look for the model directory, load the model, resolve its signature,
//! infer, report. The first failure ends the run, and so does the report;
//! after either nothing more is asked of the driver. A resize that did not
//! give the planned shape counts as a failure.

use vstd::prelude::*;
use vstd::string::*;
use crate::config::{Config, ConfigView};
use crate::error::{
    lemma_missing_model_dir_carries_hint, missing_model_dir, remediation, Code, Error, ErrorView,
};
use crate::preprocess::{
    plan_resize, resize_plan, BatchShape, ImageShape, ResizePlan, TARGET_HEIGHT, TARGET_WIDTH,
};
use crate::score::{argmax, argmax_of, is_argmax, lemma_argmax_exists};

verus! {

/// Where a run stands: what the driver was last asked to do, or how the run
/// ended.
#[derive(Clone, Copy, Debug, PartialEq, Eq, Structural)]
pub enum Stage {
    /// The image is being read and decoded.
    Decoding,
    /// The image is being resized; `output` is the shape it will have.
    Resizing { output: BatchShape },
    /// The debug copy of the resized image is being written.
    Dumping,
    /// The model directory is being looked for.
    CheckingModel,
    /// The model is being loaded.
    Loading,
    /// The names of the model's input and output are being resolved.
    Resolving,
    /// The model is being run on the image.
    Inferring,
    /// The run ended with a predicted class.
    Done { class: usize },
    /// The run ended with a failure of the given category.
    Failed { code: Code },
}

/// The state of a run: its stage, and whether a debug copy of the resized
/// image was asked for.
#[derive(Clone, Copy, Debug, PartialEq, Eq, Structural)]
pub struct State {
    pub stage: Stage,
    pub dump_debug: bool,
}

/// What the driver reports back.
#[derive(Debug, PartialEq, Eq)]
pub enum Event {
    /// The image was decoded and has this shape.
    Decoded { image: ImageShape },
    /// The image was resized, and what came out has these dimensions.
    Resized { dims: Vec<u64> },
    /// The debug copy was written.
    DebugImageWritten,
    /// The model directory was looked for.
    ModelDir { exists: bool },
    /// The model was loaded.
    ModelLoaded,
    /// The names of the model's input and output were resolved.
    SignatureResolved,
    /// The model ran and gave these class scores, each as the bit pattern of
    /// a single-precision number.
    Inferred { scores: Vec<u32> },
    /// What the driver was asked to do failed.
    Failed { error: Error },
}

/// An `Event` with its texts and scores as sequences.
pub enum EventView {
    Decoded { image: ImageShape },
    Resized { dims: Seq<u64> },
    DebugImageWritten,
    ModelDir { exists: bool },
    ModelLoaded,
    SignatureResolved,
    Inferred { scores: Seq<u32> },
    Failed { error: ErrorView },
}

impl View for Event {
    type V = EventView;

    open spec fn view(&self) -> EventView {
        match *self {
            Event::Decoded { image } => EventView::Decoded { image },
            Event::Resized { dims } => EventView::Resized { dims: dims@ },
            Event::DebugImageWritten => EventView::DebugImageWritten,
            Event::ModelDir { exists } => EventView::ModelDir { exists },
            Event::ModelLoaded => EventView::ModelLoaded,
            Event::SignatureResolved => EventView::SignatureResolved,
            Event::Inferred { scores } => EventView::Inferred { scores: scores@ },
            Event::Failed { error } => EventView::Failed { error: error@ },
        }
    }
}

/// What the driver is asked to do next.
#[derive(Debug, PartialEq, Eq)]
pub enum Action {
    /// Read the file at `path` and decode it as a JPEG image.
    Decode { path: String },
    /// Resize the decoded image as the plan says.
    Resize { plan: ResizePlan },
    /// Cast the resized image, which has the shape `shape` without its batch
    /// dimension, to 8-bit pixels and write it to `path` as a PNG file.
    WriteDebugImage { path: String, shape: ImageShape },
    /// Find out whether `path` is a directory.
    CheckModelDir { path: String },
    /// Load the model in `dir` that was exported under `tag`.
    LoadModel { dir: String, tag: String },
    /// Resolve the input and the output that the model's default serving
    /// signature declares under these names.
    ResolveSignature { input: String, output: String },
    /// Feed the resized image to the input, fetch the output, run once.
    Infer,
    /// Tell the user the predicted class. The run is over.
    Report { class: usize },
    /// Give up and tell the user `error`. The run is over.
    Abort { error: Error },
    /// Nothing: the run was over before the event came.
    Halt,
}

/// An `Action` with its texts as sequences of characters.
pub enum ActionView {
    Decode { path: Seq<char> },
    Resize { plan: ResizePlan },
    WriteDebugImage { path: Seq<char>, shape: ImageShape },
    CheckModelDir { path: Seq<char> },
    LoadModel { dir: Seq<char>, tag: Seq<char> },
    ResolveSignature { input: Seq<char>, output: Seq<char> },
    Infer,
    Report { class: usize },
    Abort { error: ErrorView },
    Halt,
}

impl View for Action {
    type V = ActionView;

    open spec fn view(&self) -> ActionView {
        match *self {
            Action::Decode { path } => ActionView::Decode { path: path@ },
            Action::Resize { plan } => ActionView::Resize { plan },
            Action::WriteDebugImage { path, shape } => ActionView::WriteDebugImage {
                path: path@,
                shape,
            },
            Action::CheckModelDir { path } => ActionView::CheckModelDir { path: path@ },
            Action::LoadModel { dir, tag } => ActionView::LoadModel { dir: dir@, tag: tag@ },
            Action::ResolveSignature { input, output } => ActionView::ResolveSignature {
                input: input@,
                output: output@,
            },
            Action::Infer => ActionView::Infer,
            Action::Report { class } => ActionView::Report { class },
            Action::Abort { error } => ActionView::Abort { error: error@ },
            Action::Halt => ActionView::Halt,
        }
    }
}

/// Whether a run in this stage is over.
pub open spec fn is_terminal(stage: Stage) -> bool {
    stage is Done || stage is Failed
}

/// The place of a stage in the order of the stages. The two ends of a run
/// share the last place.
pub open spec fn position(stage: Stage) -> nat {
    match stage {
        Stage::Decoding => 0,
        Stage::Resizing { .. } => 1,
        Stage::Dumping => 2,
        Stage::CheckingModel => 3,
        Stage::Loading => 4,
        Stage::Resolving => 5,
        Stage::Inferring => 6,
        Stage::Done { .. } => 7,
        Stage::Failed { .. } => 7,
    }
}

/// The state a run starts in.
pub open spec fn initial_state(dump_debug: bool) -> State {
    State { stage: Stage::Decoding, dump_debug }
}

/// The action a run starts with.
pub open spec fn initial_action(config: ConfigView) -> ActionView {
    ActionView::Decode { path: config.image_path }
}

/// The error for an event that does not answer what the driver was asked.
pub open spec fn out_of_order() -> ErrorView {
    ErrorView {
        code: Code::FailedPrecondition,
        message: "the event does not answer the action that was asked for"@,
    }
}

/// The error for a resized image that is not of the shape that was planned.
pub open spec fn unexpected_shape() -> ErrorView {
    ErrorView {
        code: Code::Internal,
        message: "the resized image does not have the planned shape"@,
    }
}

/// The error for a model that gave no score at all.
pub open spec fn no_scores() -> ErrorView {
    ErrorView { code: Code::InvalidArgument, message: "the model gave no class scores"@ }
}

/// The state with its stage replaced.
pub open spec fn at(state: State, stage: Stage) -> State {
    State { stage, dump_debug: state.dump_debug }
}

/// The end of a run by `error`.
pub open spec fn abort(state: State, error: ErrorView) -> (State, ActionView) {
    (at(state, Stage::Failed { code: error.code }), ActionView::Abort { error })
}

/// What an event leads to where it answers the action of the stage: the next
/// state and the next action. `None` where it does not answer it.
pub open spec fn answer(config: ConfigView, state: State, event: EventView) -> Option<
    (State, ActionView),
> {
    match (state.stage, event) {
        (Stage::Decoding, EventView::Decoded { image }) => Some(
            (
                at(state, Stage::Resizing { output: resize_plan(image).output }),
                ActionView::Resize { plan: resize_plan(image) },
            ),
        ),
        (Stage::Resizing { output }, EventView::Resized { dims }) => Some(
            if dims != output.dims_spec() {
                abort(state, unexpected_shape())
            } else if state.dump_debug {
                (
                    at(state, Stage::Dumping),
                    ActionView::WriteDebugImage { path: config.debug_path, shape: output.single() },
                )
            } else {
                (at(state, Stage::CheckingModel), ActionView::CheckModelDir { path: config.model_dir })
            },
        ),
        (Stage::Dumping, EventView::DebugImageWritten) => Some(
            (at(state, Stage::CheckingModel), ActionView::CheckModelDir { path: config.model_dir }),
        ),
        (Stage::CheckingModel, EventView::ModelDir { exists }) => Some(
            if exists {
                (
                    at(state, Stage::Loading),
                    ActionView::LoadModel { dir: config.model_dir, tag: config.serving_tag },
                )
            } else {
                abort(state, missing_model_dir(config.model_dir))
            },
        ),
        (Stage::Loading, EventView::ModelLoaded) => Some(
            (
                at(state, Stage::Resolving),
                ActionView::ResolveSignature {
                    input: config.input_tensor_name,
                    output: config.output_tensor_name,
                },
            ),
        ),
        (Stage::Resolving, EventView::SignatureResolved) => Some(
            (at(state, Stage::Inferring), ActionView::Infer),
        ),
        (Stage::Inferring, EventView::Inferred { scores }) => Some(
            if scores.len() == 0 {
                abort(state, no_scores())
            } else {
                (
                    at(state, Stage::Done { class: argmax_of(scores) as usize }),
                    ActionView::Report { class: argmax_of(scores) as usize },
                )
            },
        ),
        _ => None,
    }
}

/// The next state and the next action. A run that is over stays as it is and
/// asks for nothing. A reported failure ends the run with that failure. An
/// event that answers the action of the stage leads on as `answer` says. Any
/// other event ends the run as out of order.
pub open spec fn transition(config: ConfigView, state: State, event: EventView) -> (
    State,
    ActionView,
) {
    if is_terminal(state.stage) {
        (state, ActionView::Halt)
    } else if let EventView::Failed { error } = event {
        abort(state, error)
    } else if let Some(next) = answer(config, state, event) {
        next
    } else {
        abort(state, out_of_order())
    }
}

/// Starts a run: the state it starts in, and the first action.
pub fn start(config: &Config, dump_debug: bool) -> (r: (State, Action))
    ensures
        r.0 == initial_state(dump_debug),
        r.1@ == initial_action(config@),
{
    (State { stage: Stage::Decoding, dump_debug }, Action::Decode { path: config.image_path.clone() })
}

/// Ends a run with `error`.
fn fail(state: State, error: Error) -> (r: (State, Action))
    ensures
        r.0 == abort(state, error@).0,
        r.1@ == abort(state, error@).1,
{
    (
        State { stage: Stage::Failed { code: error.code }, dump_debug: state.dump_debug },
        Action::Abort { error },
    )
}

/// Ends a run on an event that does not answer the action of the stage.
fn fail_out_of_order(state: State) -> (r: (State, Action))
    ensures
        r.0 == abort(state, out_of_order()).0,
        r.1@ == abort(state, out_of_order()).1,
{
    fail(
        state,
        Error::new(
            Code::FailedPrecondition,
            "the event does not answer the action that was asked for",
        ),
    )
}

/// Goes on to the check for the model directory.
fn check_model_dir(config: &Config, state: State) -> (r: (State, Action))
    ensures
        r.0 == at(state, Stage::CheckingModel),
        r.1@ == (ActionView::CheckModelDir { path: config@.model_dir }),
{
    (
        State { stage: Stage::CheckingModel, dump_debug: state.dump_debug },
        Action::CheckModelDir { path: config.model_dir.clone() },
    )
}

/// Takes what the driver reports and decides how the run goes on.
pub fn step(config: &Config, state: State, event: Event) -> (r: (State, Action))
    ensures
        r.0 == transition(config@, state, event@).0,
        r.1@ == transition(config@, state, event@).1,
{
    let dump_debug = state.dump_debug;
    match state.stage {
        Stage::Done { .. } | Stage::Failed { .. } => (state, Action::Halt),
        Stage::Decoding => match event {
            Event::Failed { error } => fail(state, error),
            Event::Decoded { image } => {
                let plan = plan_resize(image);
                (
                    State { stage: Stage::Resizing { output: plan.output }, dump_debug },
                    Action::Resize { plan },
                )
            },
            _ => fail_out_of_order(state),
        },
        Stage::Resizing { output } => match event {
            Event::Failed { error } => fail(state, error),
            Event::Resized { dims } => {
                if !output.has_dims(dims.as_slice()) {
                    fail(
                        state,
                        Error::new(
                            Code::Internal,
                            "the resized image does not have the planned shape",
                        ),
                    )
                } else if dump_debug {
                    (
                        State { stage: Stage::Dumping, dump_debug },
                        Action::WriteDebugImage {
                            path: config.debug_path.clone(),
                            shape: output.without_batch(),
                        },
                    )
                } else {
                    check_model_dir(config, state)
                }
            },
            _ => fail_out_of_order(state),
        },
        Stage::Dumping => match event {
            Event::Failed { error } => fail(state, error),
            Event::DebugImageWritten => check_model_dir(config, state),
            _ => fail_out_of_order(state),
        },
        Stage::CheckingModel => match event {
            Event::Failed { error } => fail(state, error),
            Event::ModelDir { exists } => {
                if exists {
                    (
                        State { stage: Stage::Loading, dump_debug },
                        Action::LoadModel {
                            dir: config.model_dir.clone(),
                            tag: config.serving_tag.clone(),
                        },
                    )
                } else {
                    fail(state, Error::model_dir_not_found(config.model_dir.as_str()))
                }
            },
            _ => fail_out_of_order(state),
        },
        Stage::Loading => match event {
            Event::Failed { error } => fail(state, error),
            Event::ModelLoaded => (
                State { stage: Stage::Resolving, dump_debug },
                Action::ResolveSignature {
                    input: config.input_tensor_name.clone(),
                    output: config.output_tensor_name.clone(),
                },
            ),
            _ => fail_out_of_order(state),
        },
        Stage::Resolving => match event {
            Event::Failed { error } => fail(state, error),
            Event::SignatureResolved => (State { stage: Stage::Inferring, dump_debug }, Action::Infer),
            _ => fail_out_of_order(state),
        },
        Stage::Inferring => match event {
            Event::Failed { error } => fail(state, error),
            Event::Inferred { scores } => match argmax(scores.as_slice()) {
                Some(class) => (State { stage: Stage::Done { class }, dump_debug }, Action::Report { class }),
                None => fail(state, Error::new(Code::InvalidArgument, "the model gave no class scores")),
            },
            _ => fail_out_of_order(state),
        },
    }
}

/// The state a run has reached from `state` after the driver reported
/// `events`, one after the other.
pub open spec fn state_after(config: ConfigView, state: State, events: Seq<EventView>) -> State
    decreases events.len(),
{
    if events.len() == 0 {
        state
    } else {
        transition(config, state_after(config, state, events.drop_last()), events.last()).0
    }
}

/// The action that answered the last of `events`.
pub open spec fn action_after(
    config: ConfigView,
    state: State,
    events: Seq<EventView>,
) -> ActionView
    recommends
        events.len() > 0,
{
    transition(config, state_after(config, state, events.drop_last()), events.last()).1
}

/// A run that is over stays over: whatever the driver reports then, the state
/// stays as it is and nothing is asked of the driver.
pub proof fn lemma_end_is_final(config: ConfigView, state: State, events: Seq<EventView>)
    requires
        is_terminal(state.stage),
    ensures
        state_after(config, state, events) == state,
        events.len() > 0 ==> action_after(config, state, events) == ActionView::Halt,
    decreases events.len(),
{
    if events.len() > 0 {
        lemma_end_is_final(config, state, events.drop_last());
    }
}

/// A model directory that is not there ends the run with the not-found
/// error, whose message names the directory and ends with what to do about
/// it; and neither then nor later is the driver asked to load a model, to
/// resolve a signature or to infer: all it is asked after that is nothing.
pub proof fn lemma_missing_model_dir_ends_run(
    config: ConfigView,
    state: State,
    later: Seq<EventView>,
)
    requires
        state.stage == Stage::CheckingModel,
    ensures
        ({
            let (end, action) = transition(config, state, EventView::ModelDir { exists: false });
            &&& end.stage == Stage::Failed { code: Code::NotFound }
            &&& action == ActionView::Abort { error: missing_model_dir(config.model_dir) }
            &&& action->Abort_error.code == Code::NotFound
            &&& ("\""@ + config.model_dir).is_prefix_of(action->Abort_error.message)
            &&& remediation().is_suffix_of(action->Abort_error.message)
            &&& state_after(config, end, later) == end
            &&& later.len() > 0 ==> action_after(config, end, later) == ActionView::Halt
        }),
{
    let end = transition(config, state, EventView::ModelDir { exists: false }).0;
    lemma_missing_model_dir_carries_hint(config.model_dir);
    lemma_end_is_final(config, end, later);
}

/// A failure that the driver reports while the run is on ends the run with
/// that failure, its code and message as they came.
pub proof fn lemma_failure_passes_through(config: ConfigView, state: State, error: ErrorView)
    requires
        !is_terminal(state.stage),
    ensures
        transition(config, state, EventView::Failed { error }).0.stage == (Stage::Failed {
            code: error.code,
        }),
        transition(config, state, EventView::Failed { error }).1 == (ActionView::Abort { error }),
{
}

/// Every event moves a run that is on to a later stage, so that no stage is
/// entered twice; and the flag for the debug copy never changes.
pub proof fn lemma_stages_advance(config: ConfigView, state: State, event: EventView)
    requires
        !is_terminal(state.stage),
    ensures
        position(transition(config, state, event).0.stage) > position(state.stage),
        transition(config, state, event).0.dump_debug == state.dump_debug,
{
}

/// Each action is asked for in one place only. The model is loaded only once
/// its directory was found, its signature is resolved only once it was loaded,
/// it is run only once the signature was resolved, and a class is reported
/// only for scores that the model gave, as the index of their maximum.
pub proof fn lemma_load_before_use(config: ConfigView, state: State, event: EventView)
    ensures
        transition(config, state, event).1 is LoadModel ==> state.stage == Stage::CheckingModel
            && event == (EventView::ModelDir { exists: true }),
        transition(config, state, event).1 is ResolveSignature ==> state.stage == Stage::Loading
            && event == EventView::ModelLoaded,
        transition(config, state, event).1 is Infer ==> state.stage == Stage::Resolving && event
            == EventView::SignatureResolved,
        transition(config, state, event).1 matches ActionView::Report { class } ==> state.stage
            == Stage::Inferring && (event matches EventView::Inferred { scores } && is_argmax(
            scores,
            argmax_of(scores),
        ) && class == argmax_of(scores) as usize),
{
    if transition(config, state, event).1 is Report {
        lemma_argmax_exists(event->Inferred_scores);
    }
}

/// The debug copy is written exactly when it was asked for: after a resize
/// that gave the planned shape, to the configured path, with that shape
/// without its batch dimension. When it was not asked for, the run goes
/// straight on to the model directory. A resize that gave another shape ends
/// the run.
pub proof fn lemma_debug_copy_when_asked(config: ConfigView, state: State, event: EventView)
    ensures
        transition(config, state, event).1 is WriteDebugImage <==> state.dump_debug && (
        state.stage matches Stage::Resizing { output } && event == (EventView::Resized {
            dims: output.dims_spec(),
        })),
        state.stage matches Stage::Resizing { output } ==> (event matches EventView::Resized {
            dims,
        } ==> transition(config, state, event).1 == (if dims != output.dims_spec() {
            ActionView::Abort { error: unexpected_shape() }
        } else if state.dump_debug {
            ActionView::WriteDebugImage { path: config.debug_path, shape: output.single() }
        } else {
            ActionView::CheckModelDir { path: config.model_dir }
        })),
{
}

/// A run goes on past the resize only with an image of the shape that was
/// planned: where an image was reported as decoded and then as resized, and
/// the run was not ended by that, what the resize gave is a batch of one that
/// is 224 by 224 with the channels of the decoded image.
pub proof fn lemma_run_goes_on_with_planned_shape(
    config: ConfigView,
    state: State,
    events: Seq<EventView>,
)
    requires
        events.len() >= 2,
        events[events.len() - 2] is Decoded,
        events.last() is Resized,
        action_after(config, state, events) is WriteDebugImage || action_after(
            config,
            state,
            events,
        ) is CheckModelDir,
    ensures
        events.last()->Resized_dims == seq![
            1u64,
            224u64,
            224u64,
            events[events.len() - 2]->Decoded_image.channels,
        ],
{
    let before = events.drop_last();
    let decoding = state_after(config, state, before.drop_last());
    let resizing = state_after(config, state, before);
    assert(before.last() == events[events.len() - 2]);
    assert(resizing == transition(config, decoding, before.last()).0);
    assert(!is_terminal(resizing.stage));
    assert(decoding.stage == Stage::Decoding);
}

/// The image that a run resizes comes out as a batch of one that is 224 by
/// 224 with the channels of the decoded image, and that is the shape of the
/// debug copy but for the batch dimension.
pub proof fn lemma_resized_shape(config: ConfigView, dump_debug: bool, image: ImageShape)
    ensures
        ({
            let (state, action) = transition(
                config,
                initial_state(dump_debug),
                EventView::Decoded { image },
            );
            &&& action matches ActionView::Resize { plan }
            &&& plan == resize_plan(image)
            &&& plan.output.dims_spec() == seq![1u64, 224u64, 224u64, image.channels]
            &&& state.stage == Stage::Resizing { output: plan.output }
            &&& plan.output.single().dims_spec() == seq![224u64, 224u64, image.channels]
        }),
{
}

/// What holds of the state of every run that began at the start: while the
/// image is being resized, the shape it will have is a batch of one at the
/// target size.
pub open spec fn resizes_to_target(state: State) -> bool {
    state.stage matches Stage::Resizing { output } ==> output.batch == 1 && output.height
        == TARGET_HEIGHT && output.width == TARGET_WIDTH
}

/// In every run from the start, whatever the driver reports: each resize that
/// is asked for gives a batch of one that is 224 by 224 with the channels of
/// the image that was reported as decoded just before, and a debug copy is
/// asked for only if the run was started with one, to the configured path and
/// as an image of 224 by 224.
pub proof fn lemma_every_run_resizes_to_target(
    config: ConfigView,
    dump_debug: bool,
    events: Seq<EventView>,
)
    ensures
        resizes_to_target(state_after(config, initial_state(dump_debug), events)),
        state_after(config, initial_state(dump_debug), events).dump_debug == dump_debug,
        events.len() > 0 ==> (action_after(config, initial_state(dump_debug), events) matches ActionView::Resize {
            plan,
        } ==> events.last() matches EventView::Decoded { image } && plan.output.dims_spec()
            == seq![1u64, 224u64, 224u64, image.channels]),
        events.len() > 0 ==> (action_after(config, initial_state(dump_debug), events) matches ActionView::WriteDebugImage {
            path,
            shape,
        } ==> dump_debug && path == config.debug_path && shape.height == 224 && shape.width
            == 224),
    decreases events.len(),
{
    if events.len() > 0 {
        lemma_every_run_resizes_to_target(config, dump_debug, events.drop_last());
    }
}

} // verus!
