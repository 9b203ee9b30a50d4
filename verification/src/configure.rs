//! The one-time live-resize setup of a layer attached to a view.

use vstd::prelude::*;
use crate::backing_scale::{BackingScale, WindowSnapshot, backing_scale_of};
use crate::gravity::top_left_gravity_name;

verus! {

/// The operation that the setup wants performed next.
#[derive(Clone, Copy, Debug, PartialEq, Eq)]
pub enum SetupRequest {
    /// Set the layer's `contentsGravity` to `topLeft`.
    SetGravityTopLeft,
    /// Read the view's backing scale factor through its window.
    ReadBackingScale,
    /// Set the layer's `contentsScale` to this factor.
    SetContentsScale(BackingScale),
    /// Nothing more to do.
    Done,
}

/// The answer to a [`SetupRequest`].
#[derive(Clone, Copy, Debug, PartialEq, Eq)]
pub enum SetupReply {
    /// The gravity was set.
    GravitySet,
    /// The view's backing scale factor, `None` when the view has no window yet.
    BackingScaleRead(Option<BackingScale>),
    /// The contents scale was set.
    ContentsScaleSet,
}

/// Where the live-resize setup of a layer stands.
#[derive(Clone, Copy, Debug, PartialEq, Eq)]
pub enum LayerSetup {
    /// The gravity is to be set first.
    ApplyGravity,
    /// The gravity is set; the view's backing scale factor is wanted.
    AwaitBackingScale,
    /// The contents scale is to be set to this factor.
    ApplyScale(BackingScale),
    /// The setup is complete.
    Finished,
}

impl LayerSetup {
    /// The request that belongs to each stage.
    pub open spec fn spec_request(self) -> SetupRequest {
        match self {
            LayerSetup::ApplyGravity => SetupRequest::SetGravityTopLeft,
            LayerSetup::AwaitBackingScale => SetupRequest::ReadBackingScale,
            LayerSetup::ApplyScale(scale) => SetupRequest::SetContentsScale(scale),
            LayerSetup::Finished => SetupRequest::Done,
        }
    }

    /// The stage after a reply. A view without a window ends the setup with
    /// only the gravity set; a backing scale factor is applied as the contents
    /// scale. A reply that does not answer the stage's request leaves the
    /// stage as it is.
    pub open spec fn spec_after(self, reply: SetupReply) -> LayerSetup {
        match (self, reply) {
            (LayerSetup::ApplyGravity, SetupReply::GravitySet) => LayerSetup::AwaitBackingScale,
            (LayerSetup::AwaitBackingScale, SetupReply::BackingScaleRead(read)) => {
                match read {
                    Some(scale) => LayerSetup::ApplyScale(scale),
                    None => LayerSetup::Finished,
                }
            },
            (LayerSetup::ApplyScale(_), SetupReply::ContentsScaleSet) => LayerSetup::Finished,
            _ => self,
        }
    }

    /// A new setup, which first sets the gravity.
    pub fn start() -> (setup: LayerSetup)
        ensures
            setup == LayerSetup::ApplyGravity,
            setup.spec_request() == SetupRequest::SetGravityTopLeft,
    {
        LayerSetup::ApplyGravity
    }

    /// The operation to perform next.
    pub fn request(&self) -> (request: SetupRequest)
        ensures
            request == self.spec_request(),
    {
        match *self {
            LayerSetup::ApplyGravity => SetupRequest::SetGravityTopLeft,
            LayerSetup::AwaitBackingScale => SetupRequest::ReadBackingScale,
            LayerSetup::ApplyScale(scale) => SetupRequest::SetContentsScale(scale),
            LayerSetup::Finished => SetupRequest::Done,
        }
    }

    /// Takes the reply to the current request and moves to the next stage.
    pub fn after(self, reply: SetupReply) -> (next: LayerSetup)
        ensures
            next == self.spec_after(reply),
    {
        match (self, reply) {
            (LayerSetup::ApplyGravity, SetupReply::GravitySet) => LayerSetup::AwaitBackingScale,
            (LayerSetup::AwaitBackingScale, SetupReply::BackingScaleRead(read)) => {
                match read {
                    Some(scale) => LayerSetup::ApplyScale(scale),
                    None => LayerSetup::Finished,
                }
            },
            (LayerSetup::ApplyScale(_), SetupReply::ContentsScaleSet) => LayerSetup::Finished,
            _ => self,
        }
    }
}

/// The reply to `request` when the view's backing scale reads as `read`.
pub open spec fn setup_reply(request: SetupRequest, read: Option<BackingScale>) -> SetupReply {
    match request {
        SetupRequest::SetGravityTopLeft => SetupReply::GravitySet,
        SetupRequest::ReadBackingScale => SetupReply::BackingScaleRead(read),
        SetupRequest::SetContentsScale(_) => SetupReply::ContentsScaleSet,
        SetupRequest::Done => SetupReply::GravitySet,
    }
}

/// The stage reached after `steps` rounds when the backing scale reads as
/// `read`.
pub open spec fn setup_run(setup: LayerSetup, read: Option<BackingScale>, steps: nat) -> LayerSetup
    decreases steps,
{
    if steps == 0 {
        setup
    } else {
        setup_run(setup.spec_after(setup_reply(setup.spec_request(), read)), read, (steps - 1) as nat)
    }
}

/// The operations performed in up to `steps` rounds when the backing scale
/// reads as `read`, until the setup is finished.
pub open spec fn setup_operations(setup: LayerSetup, read: Option<BackingScale>, steps: nat) -> Seq<SetupRequest>
    decreases steps,
{
    if steps == 0 || setup is Finished {
        Seq::empty()
    } else {
        seq![setup.spec_request()] + setup_operations(
            setup.spec_after(setup_reply(setup.spec_request(), read)),
            read,
            (steps - 1) as nat,
        )
    }
}

/// The operations of a complete setup: the gravity first, then the read of
/// the backing scale, then, only when a scale was read, that scale as the
/// contents scale.
pub open spec fn setup_plan(read: Option<BackingScale>) -> Seq<SetupRequest> {
    seq![SetupRequest::SetGravityTopLeft, SetupRequest::ReadBackingScale] + match read {
        Some(scale) => seq![SetupRequest::SetContentsScale(scale)],
        None => Seq::empty(),
    }
}

/// Whatever the backing scale reads as, the setup is finished within three
/// rounds, and its operations are `setup_plan`: the gravity is set exactly
/// once and first, and the contents scale is set once, to the factor read,
/// exactly when one was read.
pub proof fn lemma_setup_outcome(read: Option<BackingScale>)
    ensures
        setup_run(LayerSetup::ApplyGravity, read, 3) == LayerSetup::Finished,
        setup_operations(LayerSetup::ApplyGravity, read, 3) == setup_plan(read),
{
    reveal_with_fuel(setup_run, 4);
    reveal_with_fuel(setup_operations, 4);
    assert(setup_operations(LayerSetup::ApplyGravity, read, 3) =~= setup_plan(read));
}

/// With the backing scale read from a view, the setup sets the contents scale
/// to the window's factor when the view has a window, and sets only the
/// gravity when it has none.
pub proof fn lemma_setup_follows_window(view: WindowSnapshot)
    ensures
        setup_operations(LayerSetup::ApplyGravity, backing_scale_of(view), 3) == (if view.attached {
            seq![
                SetupRequest::SetGravityTopLeft,
                SetupRequest::ReadBackingScale,
                SetupRequest::SetContentsScale(view.scale),
            ]
        } else {
            seq![SetupRequest::SetGravityTopLeft, SetupRequest::ReadBackingScale]
        }),
{
    lemma_setup_outcome(backing_scale_of(view));
    assert(setup_plan(backing_scale_of(view)) =~= (if view.attached {
        seq![
            SetupRequest::SetGravityTopLeft,
            SetupRequest::ReadBackingScale,
            SetupRequest::SetContentsScale(view.scale),
        ]
    } else {
        seq![SetupRequest::SetGravityTopLeft, SetupRequest::ReadBackingScale]
    }));
}

/// The two layer properties that the setup writes, `(contentsGravity,
/// contentsScale)`, after `operation`: each setter replaces its property with
/// the value it is given and leaves the other as it was; reading the backing
/// scale, and finishing, change neither.
pub open spec fn apply_operation(layer: (Seq<u8>, BackingScale), operation: SetupRequest) -> (Seq<u8>, BackingScale) {
    match operation {
        SetupRequest::SetGravityTopLeft => (top_left_gravity_name(), layer.1),
        SetupRequest::SetContentsScale(scale) => (layer.0, scale),
        SetupRequest::ReadBackingScale => layer,
        SetupRequest::Done => layer,
    }
}

/// The layer properties after `operations`, performed in order.
pub open spec fn apply_operations(layer: (Seq<u8>, BackingScale), operations: Seq<SetupRequest>) -> (Seq<u8>, BackingScale)
    decreases operations.len(),
{
    if operations.len() == 0 {
        layer
    } else {
        apply_operations(apply_operation(layer, operations[0]), operations.drop_first())
    }
}

/// The layer properties after one complete setup, starting from `layer`, with
/// the backing scale reading as `read`.
pub open spec fn configured(layer: (Seq<u8>, BackingScale), read: Option<BackingScale>) -> (Seq<u8>, BackingScale) {
    apply_operations(layer, setup_operations(LayerSetup::ApplyGravity, read, 3))
}

/// A setup leaves the layer with the top-left gravity, and with the backing
/// scale read as its contents scale, or its contents scale unchanged when the
/// view has no window.
pub proof fn lemma_setup_result(layer: (Seq<u8>, BackingScale), read: Option<BackingScale>)
    ensures
        configured(layer, read) == (top_left_gravity_name(), match read {
            Some(scale) => scale,
            None => layer.1,
        }),
{
    lemma_setup_outcome(read);
    let ops = setup_plan(read);
    reveal_with_fuel(apply_operations, 5);
    match read {
        Some(scale) => {
            assert(ops.drop_first() =~= seq![SetupRequest::ReadBackingScale, SetupRequest::SetContentsScale(scale)]);
            assert(ops.drop_first().drop_first() =~= seq![SetupRequest::SetContentsScale(scale)]);
            assert(ops.drop_first().drop_first().drop_first() =~= Seq::<SetupRequest>::empty());
        },
        None => {
            assert(ops.drop_first() =~= seq![SetupRequest::ReadBackingScale]);
            assert(ops.drop_first().drop_first() =~= Seq::<SetupRequest>::empty());
        },
    }
}

/// Configuring a layer twice, while the view's window and its backing scale
/// factor stay as they are, leaves the layer as configuring it once does.
pub proof fn lemma_setup_idempotent(layer: (Seq<u8>, BackingScale), read: Option<BackingScale>)
    ensures
        configured(configured(layer, read), read) == configured(layer, read),
{
    lemma_setup_result(layer, read);
    lemma_setup_result(configured(layer, read), read);
}

/// Setting the top-left gravity twice leaves the layer as setting it once
/// does.
pub proof fn lemma_gravity_idempotent(layer: (Seq<u8>, BackingScale))
    ensures
        apply_operation(apply_operation(layer, SetupRequest::SetGravityTopLeft), SetupRequest::SetGravityTopLeft)
            == apply_operation(layer, SetupRequest::SetGravityTopLeft),
{
}

/// Once finished, the setup stays finished whatever it is told.
pub proof fn lemma_setup_finished_is_final(reply: SetupReply)
    ensures
        LayerSetup::Finished.spec_after(reply) == LayerSetup::Finished,
        LayerSetup::Finished.spec_request() == SetupRequest::Done,
{
}

} // verus!
