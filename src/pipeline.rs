use vstd::prelude::*;

use crate::copy_source::{copy_source, copy_source_of};
use crate::event::{DecodeError, EventBridgeEvent, ObjectRef};
use crate::keys::{derive_key, derived_key};
use crate::transform::{
    preview_bytes, transform, TransformError, PREVIEW_MAX_HEIGHT, PREVIEW_MAX_WIDTH,
};

verus! {

/// Storage class of an object.
#[derive(Debug, Clone, Copy, PartialEq, Eq, Structural)]
pub enum StorageTier {
    Standard,
    DeepArchive,
}

/// The tier that a processed source object is moved to.
pub const ARCHIVE_TIER: StorageTier = StorageTier::DeepArchive;

/// The step of an invocation at which it failed.
#[derive(Debug, Clone, Copy, PartialEq, Eq, Structural)]
pub enum Stage {
    Decoding,
    Fetching,
    Transforming,
    Uploading,
    Transitioning,
}

/// What made an invocation fail.
#[derive(Debug, Clone, Copy, PartialEq, Eq, Structural)]
pub enum FailureCause {
    /// The notification does not name an object.
    Decode(DecodeError),
    /// The source object was gone when it was fetched.
    NotFound,
    /// The source object holds no image that a preview can be made of.
    Image(TransformError),
    /// A storage call failed for a reason worth retrying, a timeout included.
    Transient,
}

/// Whether redelivering the notification may help.
#[derive(Debug, Clone, Copy, PartialEq, Eq, Structural)]
pub enum Retry {
    Retryable,
    Permanent,
}

/// Terminal result of one invocation.
#[derive(Debug, Clone, Copy, PartialEq, Eq, Structural)]
pub enum PipelineOutcome {
    Success,
    Failed { stage: Stage, cause: FailureCause },
}

pub open spec fn retry_of(cause: FailureCause) -> Retry {
    match cause {
        FailureCause::Transient => Retry::Retryable,
        _ => Retry::Permanent,
    }
}

impl FailureCause {
    /// Only transient storage failures are worth a redelivery.
    pub fn retry(&self) -> (r: Retry)
        ensures
            r == retry_of(*self),
    {
        match self {
            FailureCause::Transient => Retry::Retryable,
            _ => Retry::Permanent,
        }
    }
}

/// A call on the storage service that the caller is to make.
pub enum GatewayCall {
    /// Read the object `key` of `bucket`.
    Fetch { bucket: String, key: String },
    /// Store `bytes` as object `key` of `bucket`.
    Put { bucket: String, key: String, bytes: Vec<u8> },
    /// Copy object `key` of `bucket` onto itself, from `copy_source`, in `tier`.
    Transition { bucket: String, key: String, copy_source: String, tier: StorageTier },
}

/// What the caller is to do next.
pub enum Action {
    Call(GatewayCall),
    Finish(PipelineOutcome),
}

pub enum FetchResult {
    Fetched(Vec<u8>),
    NotFound,
    Transient,
}

pub enum PutResult {
    Stored,
    Transient,
}

pub enum TransitionResult {
    Transitioned,
    AlreadyInTier,
    Transient,
}

/// The result of the last call, handed back by the caller.
pub enum GatewayEvent {
    Fetch(FetchResult),
    Put(PutResult),
    Transition(TransitionResult),
}

/// Which call was made; the record of an invocation.
#[derive(Debug, Clone, Copy, PartialEq, Eq, Structural)]
pub enum CallKind {
    Fetch,
    Put,
    Transition,
}

/// Where an invocation stands: waiting for the result of a call on the
/// object, or done.
pub enum Phase {
    Fetching(ObjectRef),
    Uploading(ObjectRef),
    Transitioning(ObjectRef),
    Done(PipelineOutcome),
}

/// One invocation of the pipeline, driven by `start` and `step`.
pub struct Pipeline {
    pub phase: Phase,
    /// The calls asked of the caller so far, in order.
    pub calls: Ghost<Seq<CallKind>>,
}

/// The only order in which an invocation asks for calls.
pub open spec fn call_order() -> Seq<CallKind> {
    seq![CallKind::Fetch, CallKind::Put, CallKind::Transition]
}

pub open spec fn is_fetch_of(a: Action, o: ObjectRef) -> bool {
    a matches Action::Call(GatewayCall::Fetch { bucket, key }) && bucket@ == o.bucket@ && key@
        == o.key@
}

pub open spec fn is_put_of(a: Action, o: ObjectRef, bytes: Seq<u8>) -> bool {
    a matches Action::Call(GatewayCall::Put { bucket, key, bytes: b }) && bucket@ == o.bucket@
        && key@ == derived_key(o.key@) && b@ == bytes
}

pub open spec fn is_transition_of(a: Action, o: ObjectRef) -> bool {
    a matches Action::Call(GatewayCall::Transition { bucket, key, copy_source, tier })
        && bucket@ == o.bucket@ && key@ == o.key@ && copy_source@ == copy_source_of(
        o.bucket@,
        o.key@,
    ) && tier == ARCHIVE_TIER
}

/// `post` and `act` end the invocation `pre` with `outcome`.
pub open spec fn finishes(
    pre: Pipeline,
    post: Pipeline,
    act: Action,
    outcome: PipelineOutcome,
) -> bool {
    &&& post.phase == Phase::Done(outcome)
    &&& act == Action::Finish(outcome)
    &&& post.calls@ == pre.calls@
}

/// `post` and `act` move the invocation `pre` on to `phase`, asking for a
/// call of kind `kind`.
pub open spec fn advances(
    pre: Pipeline,
    post: Pipeline,
    phase: Phase,
    kind: CallKind,
) -> bool {
    &&& post.phase == phase
    &&& post.calls@ == pre.calls@.push(kind)
}

/// What `step` does with the result `event` of the call that `pre` asked for.
pub open spec fn step_post(pre: Pipeline, event: GatewayEvent, post: Pipeline, act: Action) -> bool {
    match (pre.phase, event) {
        (Phase::Fetching(o), GatewayEvent::Fetch(FetchResult::Fetched(raw))) => {
            match preview_bytes(raw@, PREVIEW_MAX_WIDTH, PREVIEW_MAX_HEIGHT) {
                Some(bytes) => advances(pre, post, Phase::Uploading(o), CallKind::Put)
                    && is_put_of(act, o, bytes),
                None => exists|e: TransformError|
                    finishes(
                        pre,
                        post,
                        act,
                        PipelineOutcome::Failed {
                            stage: Stage::Transforming,
                            cause: FailureCause::Image(e),
                        },
                    ),
            }
        },
        (Phase::Fetching(o), GatewayEvent::Fetch(FetchResult::NotFound)) => finishes(
            pre,
            post,
            act,
            PipelineOutcome::Failed { stage: Stage::Fetching, cause: FailureCause::NotFound },
        ),
        (Phase::Fetching(o), GatewayEvent::Fetch(FetchResult::Transient)) => finishes(
            pre,
            post,
            act,
            PipelineOutcome::Failed { stage: Stage::Fetching, cause: FailureCause::Transient },
        ),
        (Phase::Uploading(o), GatewayEvent::Put(PutResult::Stored)) => advances(
            pre,
            post,
            Phase::Transitioning(o),
            CallKind::Transition,
        ) && is_transition_of(act, o),
        (Phase::Uploading(o), GatewayEvent::Put(PutResult::Transient)) => finishes(
            pre,
            post,
            act,
            PipelineOutcome::Failed { stage: Stage::Uploading, cause: FailureCause::Transient },
        ),
        (Phase::Transitioning(o), GatewayEvent::Transition(TransitionResult::Transient)) => finishes(
            pre,
            post,
            act,
            PipelineOutcome::Failed {
                stage: Stage::Transitioning,
                cause: FailureCause::Transient,
            },
        ),
        (Phase::Transitioning(o), GatewayEvent::Transition(_)) => finishes(
            pre,
            post,
            act,
            PipelineOutcome::Success,
        ),
        _ => false,
    }
}

impl Pipeline {
    /// The record of calls agrees with the phase: a prefix of `call_order`,
    /// whose last call is the one awaited.
    pub open spec fn wf(&self) -> bool {
        &&& self.calls@.len() <= 3
        &&& self.calls@ == call_order().take(self.calls@.len() as int)
        &&& match self.phase {
            Phase::Fetching(_) => self.calls@.len() == 1,
            Phase::Uploading(_) => self.calls@.len() == 2,
            Phase::Transitioning(_) => self.calls@.len() == 3,
            Phase::Done(_) => true,
        }
    }

    /// `event` answers the call that the invocation waits for.
    pub open spec fn awaits(&self, event: GatewayEvent) -> bool {
        match (self.phase, event) {
            (Phase::Fetching(_), GatewayEvent::Fetch(_)) => true,
            (Phase::Uploading(_), GatewayEvent::Put(_)) => true,
            (Phase::Transitioning(_), GatewayEvent::Transition(_)) => true,
            _ => false,
        }
    }

    /// Whether `event` answers the call that the invocation waits for.
    pub fn accepts(&self, event: &GatewayEvent) -> (r: bool)
        ensures
            r == self.awaits(*event),
    {
        match (&self.phase, event) {
            (Phase::Fetching(_), GatewayEvent::Fetch(_)) => true,
            (Phase::Uploading(_), GatewayEvent::Put(_)) => true,
            (Phase::Transitioning(_), GatewayEvent::Transition(_)) => true,
            _ => false,
        }
    }

    /// Begins an invocation for `event`: asks for the source object, or ends
    /// at once, with no call made, when the notification names no object.
    pub fn start(event: &EventBridgeEvent) -> (r: (Pipeline, Action))
        ensures
            r.0.wf(),
            match (event.bucket_name(), event.object_key()) {
                (Some(_), Some(_)) => {
                    &&& r.0.calls@ == seq![CallKind::Fetch]
                    &&& r.0.phase matches Phase::Fetching(o) && Some(o.bucket@)
                        == event.bucket_name() && Some(o.key@) == event.object_key()
                        && o.size_bytes == event.object_size() && is_fetch_of(r.1, o)
                },
                (None, _) => r.0.calls@.len() == 0 && r.0.phase == Phase::Done(
                    PipelineOutcome::Failed {
                        stage: Stage::Decoding,
                        cause: FailureCause::Decode(DecodeError::MissingBucketName),
                    },
                ) && r.1 == Action::Finish(
                    PipelineOutcome::Failed {
                        stage: Stage::Decoding,
                        cause: FailureCause::Decode(DecodeError::MissingBucketName),
                    },
                ),
                (Some(_), None) => r.0.calls@.len() == 0 && r.0.phase == Phase::Done(
                    PipelineOutcome::Failed {
                        stage: Stage::Decoding,
                        cause: FailureCause::Decode(DecodeError::MissingObjectKey),
                    },
                ) && r.1 == Action::Finish(
                    PipelineOutcome::Failed {
                        stage: Stage::Decoding,
                        cause: FailureCause::Decode(DecodeError::MissingObjectKey),
                    },
                ),
            },
    {
        match event.decode() {
            Ok(o) => {
                let call = GatewayCall::Fetch { bucket: o.bucket.clone(), key: o.key.clone() };
                let calls: Ghost<Seq<CallKind>> = Ghost(Seq::empty().push(CallKind::Fetch));
                let p = Pipeline { phase: Phase::Fetching(o), calls };
                assert(p.calls@ =~= call_order().take(1));
                (p, Action::Call(call))
            },
            Err(e) => {
                let outcome = PipelineOutcome::Failed {
                    stage: Stage::Decoding,
                    cause: FailureCause::Decode(e),
                };
                let calls: Ghost<Seq<CallKind>> = Ghost(Seq::empty());
                let p = Pipeline { phase: Phase::Done(outcome), calls };
                assert(p.calls@ =~= call_order().take(0));
                (p, Action::Finish(outcome))
            },
        }
    }

    /// Takes the result of the call asked for last, and says what to do
    /// next: make the following call, or finish. A fetched object is made
    /// into its preview, which is stored before the source is moved to
    /// `ARCHIVE_TIER`; any failure ends the invocation at once.
    pub fn step(self, event: GatewayEvent) -> (r: (Pipeline, Action))
        requires
            self.wf(),
            self.awaits(event),
        ensures
            r.0.wf(),
            step_post(self, event, r.0, r.1),
    {
        let ghost pre = self;
        let calls = self.calls;
        match self.phase {
            Phase::Fetching(o) => match event {
                GatewayEvent::Fetch(FetchResult::Fetched(raw)) => {
                    match transform(raw.as_slice(), PREVIEW_MAX_WIDTH, PREVIEW_MAX_HEIGHT) {
                        Ok(preview) => {
                            let key = derive_key(o.key.as_str());
                            let call = GatewayCall::Put {
                                bucket: o.bucket.clone(),
                                key,
                                bytes: preview.bytes,
                            };
                            let p = Pipeline {
                                phase: Phase::Uploading(o),
                                calls: Ghost(calls@.push(CallKind::Put)),
                            };
                            assert(p.calls@ =~= call_order().take(2));
                            (p, Action::Call(call))
                        },
                        Err(e) => {
                            let r = Self::fail(calls, Stage::Transforming, FailureCause::Image(e));
                            assert(finishes(
                                pre,
                                r.0,
                                r.1,
                                PipelineOutcome::Failed {
                                    stage: Stage::Transforming,
                                    cause: FailureCause::Image(e),
                                },
                            ));
                            r
                        },
                    }
                },
                GatewayEvent::Fetch(FetchResult::NotFound) => Self::fail(
                    calls,
                    Stage::Fetching,
                    FailureCause::NotFound,
                ),
                _ => Self::fail(calls, Stage::Fetching, FailureCause::Transient),
            },
            Phase::Uploading(o) => match event {
                GatewayEvent::Put(PutResult::Stored) => {
                    let source = copy_source(o.bucket.as_str(), o.key.as_str());
                    let call = GatewayCall::Transition {
                        bucket: o.bucket.clone(),
                        key: o.key.clone(),
                        copy_source: source,
                        tier: ARCHIVE_TIER,
                    };
                    let p = Pipeline {
                        phase: Phase::Transitioning(o),
                        calls: Ghost(calls@.push(CallKind::Transition)),
                    };
                    assert(p.calls@ =~= call_order().take(3));
                    (p, Action::Call(call))
                },
                _ => Self::fail(calls, Stage::Uploading, FailureCause::Transient),
            },
            Phase::Transitioning(o) => match event {
                GatewayEvent::Transition(TransitionResult::Transient) => Self::fail(
                    calls,
                    Stage::Transitioning,
                    FailureCause::Transient,
                ),
                _ => {
                    let p = Pipeline { phase: Phase::Done(PipelineOutcome::Success), calls };
                    (p, Action::Finish(PipelineOutcome::Success))
                },
            },
            Phase::Done(outcome) => {
                let p = Pipeline { phase: Phase::Done(outcome), calls };
                (p, Action::Finish(outcome))
            },
        }
    }

    fn fail(calls: Ghost<Seq<CallKind>>, stage: Stage, cause: FailureCause) -> (r: (
        Pipeline,
        Action,
    ))
        ensures
            r.0.phase == Phase::Done(PipelineOutcome::Failed { stage, cause }),
            r.1 == Action::Finish(PipelineOutcome::Failed { stage, cause }),
            r.0.calls == calls,
    {
        let outcome = PipelineOutcome::Failed { stage, cause };
        (Pipeline { phase: Phase::Done(outcome), calls }, Action::Finish(outcome))
    }
}

/// In the record of every invocation, each call that moves the source to
/// another tier comes after a call that stores the preview.
pub proof fn lemma_put_precedes_transition(p: Pipeline)
    requires
        p.wf(),
    ensures
        forall|i: int|
            0 <= i < p.calls@.len() && p.calls@[i] == CallKind::Transition ==> exists|j: int|
                0 <= j < i && p.calls@[j] == CallKind::Put,
{
    assert forall|i: int|
        0 <= i < p.calls@.len() && p.calls@[i] == CallKind::Transition implies exists|j: int|
            0 <= j < i && p.calls@[j] == CallKind::Put by {
        assert(p.calls@[i] == call_order()[i]);
        assert(i == 2);
        assert(p.calls@[1] == CallKind::Put);
    }
}

/// The source is moved to another tier only in answer to a stored preview.
pub proof fn lemma_transition_follows_stored_put(
    pre: Pipeline,
    event: GatewayEvent,
    post: Pipeline,
    act: Action,
)
    requires
        pre.wf(),
        step_post(pre, event, post, act),
        act matches Action::Call(GatewayCall::Transition { .. }),
    ensures
        pre.phase is Uploading,
        event matches GatewayEvent::Put(PutResult::Stored),
        post.calls@ == pre.calls@.push(CallKind::Transition),
        pre.calls@.last() == CallKind::Put,
{
}

/// The bucket, key and bytes of a call that stores a preview.
pub open spec fn put_view(a: Action) -> Option<(Seq<char>, Seq<char>, Seq<u8>)> {
    match a {
        Action::Call(GatewayCall::Put { bucket, key, bytes }) => Some((bucket@, key@, bytes@)),
        _ => None,
    }
}

/// The bucket, key, copy source and tier of a call that moves a source.
pub open spec fn transition_view(a: Action) -> Option<(Seq<char>, Seq<char>, Seq<char>, StorageTier)> {
    match a {
        Action::Call(GatewayCall::Transition { bucket, key, copy_source, tier }) => Some(
            (bucket@, key@, copy_source@, tier),
        ),
        _ => None,
    }
}

/// Both invocations wait for the same call on the same object.
pub open spec fn same_wait(p1: Pipeline, p2: Pipeline) -> bool {
    match (p1.phase, p2.phase) {
        (Phase::Fetching(a), Phase::Fetching(b)) => a.bucket@ == b.bucket@ && a.key@ == b.key@,
        (Phase::Uploading(a), Phase::Uploading(b)) => a.bucket@ == b.bucket@ && a.key@ == b.key@,
        _ => false,
    }
}

/// Both results report success, a fetch with the same bytes.
pub open spec fn same_success(e1: GatewayEvent, e2: GatewayEvent) -> bool {
    match (e1, e2) {
        (
            GatewayEvent::Fetch(FetchResult::Fetched(x)),
            GatewayEvent::Fetch(FetchResult::Fetched(y)),
        ) => x@ == y@,
        (GatewayEvent::Put(PutResult::Stored), GatewayEvent::Put(PutResult::Stored)) => true,
        _ => false,
    }
}

/// The same object with the same bytes, delivered twice, is stored as the
/// same preview under the same key, and its source is moved to the same tier.
pub proof fn lemma_redelivery_same_effects(
    p1: Pipeline,
    p2: Pipeline,
    event1: GatewayEvent,
    event2: GatewayEvent,
    q1: Pipeline,
    q2: Pipeline,
    a1: Action,
    a2: Action,
)
    requires
        same_wait(p1, p2),
        same_success(event1, event2),
        step_post(p1, event1, q1, a1),
        step_post(p2, event2, q2, a2),
    ensures
        put_view(a1) == put_view(a2),
        transition_view(a1) == transition_view(a2),
{
}

/// A source already in the archive tier ends the invocation as a success,
/// exactly as a source just moved there does.
pub proof fn lemma_already_in_tier_is_success(
    p: Pipeline,
    q1: Pipeline,
    q2: Pipeline,
    a1: Action,
    a2: Action,
)
    requires
        p.phase is Transitioning,
        step_post(p, GatewayEvent::Transition(TransitionResult::Transitioned), q1, a1),
        step_post(p, GatewayEvent::Transition(TransitionResult::AlreadyInTier), q2, a2),
    ensures
        a1 == Action::Finish(PipelineOutcome::Success),
        a2 == a1,
        q1.phase == q2.phase,
{
}

} // verus!
