//! The per-frame query of the size of the layer's next drawable.

use vstd::prelude::*;

verus! {

/// A texture dimension (an `NSUInteger`) as the `u32` that callers render with:
/// its low 32 bits.
pub open spec fn truncated(dimension: u64) -> u32 {
    (dimension % 0x1_0000_0000) as u32
}

/// Pixel size `(width, height)` of a drawable's texture, each dimension
/// truncated to its low 32 bits.
pub fn texture_extent(width: u64, height: u64) -> (extent: (u32, u32))
    ensures
        extent.0 == width % 0x1_0000_0000,
        extent.1 == height % 0x1_0000_0000,
        extent == (truncated(width), truncated(height)),
{
    assert(width as u32 == width % 0x1_0000_0000) by (bit_vector);
    assert(height as u32 == height % 0x1_0000_0000) by (bit_vector);
    (width as u32, height as u32)
}

/// The message that the size query wants sent next.
#[derive(Clone, Copy, Debug, PartialEq, Eq)]
pub enum SizeRequest {
    /// Send `nextDrawable` to the layer (this takes a drawable from its pool).
    NextDrawable,
    /// Send `texture` to the drawable just obtained.
    DrawableTexture,
    /// Read `width`, then `height`, of the texture just obtained.
    TextureExtent,
    /// Nothing more to send: the query's answer, `None` when the frame must
    /// be skipped.
    Done(Option<(u32, u32)>),
}

/// The answer to a [`SizeRequest`].
#[derive(Clone, Copy, Debug, PartialEq, Eq)]
pub enum SizeReply {
    /// What `nextDrawable` returned: a drawable, or `nil`.
    Drawable { present: bool },
    /// What `texture` returned: a texture, or `nil`.
    Texture { present: bool },
    /// The texture's `width` and `height`.
    Extent { width: u64, height: u64 },
}

/// Where a query of the drawable's texture size stands.
#[derive(Clone, Copy, Debug, PartialEq, Eq)]
pub enum SizeQuery {
    /// Waiting for the layer's next drawable.
    AwaitDrawable,
    /// A drawable was obtained; waiting for its texture.
    AwaitTexture,
    /// The texture exists; waiting for its width and height.
    AwaitExtent,
    /// The query is over, with its answer.
    Finished(Option<(u32, u32)>),
}

impl SizeQuery {
    /// The request that belongs to each stage.
    pub open spec fn spec_request(self) -> SizeRequest {
        match self {
            SizeQuery::AwaitDrawable => SizeRequest::NextDrawable,
            SizeQuery::AwaitTexture => SizeRequest::DrawableTexture,
            SizeQuery::AwaitExtent => SizeRequest::TextureExtent,
            SizeQuery::Finished(answer) => SizeRequest::Done(answer),
        }
    }

    /// The stage after a reply. A `nil` drawable or texture ends the query
    /// with no size; the dimensions end it with their truncation. A reply that
    /// does not answer the stage's request leaves the stage as it is.
    pub open spec fn spec_after(self, reply: SizeReply) -> SizeQuery {
        match (self, reply) {
            (SizeQuery::AwaitDrawable, SizeReply::Drawable { present }) => {
                if present {
                    SizeQuery::AwaitTexture
                } else {
                    SizeQuery::Finished(None)
                }
            },
            (SizeQuery::AwaitTexture, SizeReply::Texture { present }) => {
                if present {
                    SizeQuery::AwaitExtent
                } else {
                    SizeQuery::Finished(None)
                }
            },
            (SizeQuery::AwaitExtent, SizeReply::Extent { width, height }) => {
                SizeQuery::Finished(Some((truncated(width), truncated(height))))
            },
            _ => self,
        }
    }

    /// A new query, which first wants the layer's next drawable.
    pub fn start() -> (query: SizeQuery)
        ensures
            query == SizeQuery::AwaitDrawable,
            query.spec_request() == SizeRequest::NextDrawable,
    {
        SizeQuery::AwaitDrawable
    }

    /// The message to send next.
    pub fn request(&self) -> (request: SizeRequest)
        ensures
            request == self.spec_request(),
    {
        match *self {
            SizeQuery::AwaitDrawable => SizeRequest::NextDrawable,
            SizeQuery::AwaitTexture => SizeRequest::DrawableTexture,
            SizeQuery::AwaitExtent => SizeRequest::TextureExtent,
            SizeQuery::Finished(answer) => SizeRequest::Done(answer),
        }
    }

    /// Takes the reply to the current request and moves to the next stage.
    pub fn after(self, reply: SizeReply) -> (next: SizeQuery)
        ensures
            next == self.spec_after(reply),
    {
        match (self, reply) {
            (SizeQuery::AwaitDrawable, SizeReply::Drawable { present }) => {
                if present {
                    SizeQuery::AwaitTexture
                } else {
                    SizeQuery::Finished(None)
                }
            },
            (SizeQuery::AwaitTexture, SizeReply::Texture { present }) => {
                if present {
                    SizeQuery::AwaitExtent
                } else {
                    SizeQuery::Finished(None)
                }
            },
            (SizeQuery::AwaitExtent, SizeReply::Extent { width, height }) => {
                SizeQuery::Finished(Some(texture_extent(width, height)))
            },
            _ => self,
        }
    }
}

/// What a layer answers during one size query: whether `nextDrawable` gives a
/// drawable, whether that drawable has a texture, and the texture's size.
pub struct DrawableSnapshot {
    pub drawable: bool,
    pub texture: bool,
    pub width: u64,
    pub height: u64,
}

/// The reply that `layer` gives to `request`.
pub open spec fn size_reply(request: SizeRequest, layer: DrawableSnapshot) -> SizeReply {
    match request {
        SizeRequest::NextDrawable => SizeReply::Drawable { present: layer.drawable },
        SizeRequest::DrawableTexture => SizeReply::Texture { present: layer.texture },
        SizeRequest::TextureExtent => SizeReply::Extent { width: layer.width, height: layer.height },
        SizeRequest::Done(_) => SizeReply::Drawable { present: layer.drawable },
    }
}

/// The stage reached after `steps` request and reply rounds against `layer`.
pub open spec fn size_run(query: SizeQuery, layer: DrawableSnapshot, steps: nat) -> SizeQuery
    decreases steps,
{
    if steps == 0 {
        query
    } else {
        size_run(query.spec_after(size_reply(query.spec_request(), layer)), layer, (steps - 1) as nat)
    }
}

/// The messages sent in up to `steps` rounds against `layer`, until the query
/// is finished.
pub open spec fn size_messages(query: SizeQuery, layer: DrawableSnapshot, steps: nat) -> Seq<SizeRequest>
    decreases steps,
{
    if steps == 0 || query is Finished {
        Seq::empty()
    } else {
        seq![query.spec_request()] + size_messages(
            query.spec_after(size_reply(query.spec_request(), layer)),
            layer,
            (steps - 1) as nat,
        )
    }
}

/// The size that a query against `layer` reports: none when the drawable pool
/// is exhausted or the drawable has no texture, else the texture's dimensions.
pub open spec fn texture_size_of(layer: DrawableSnapshot) -> Option<(u32, u32)> {
    if !layer.drawable || !layer.texture {
        None
    } else {
        Some((truncated(layer.width), truncated(layer.height)))
    }
}

/// A size query, answered by any layer, is finished within three rounds and
/// reports `texture_size_of` that layer. It takes exactly one drawable from the
/// pool, asks for the texture only of a drawable that exists, and reads the
/// dimensions only of a texture that exists.
pub proof fn lemma_size_query_outcome(layer: DrawableSnapshot)
    ensures
        size_run(SizeQuery::AwaitDrawable, layer, 3) == SizeQuery::Finished(texture_size_of(layer)),
        size_messages(SizeQuery::AwaitDrawable, layer, 3) == (if !layer.drawable {
            seq![SizeRequest::NextDrawable]
        } else if !layer.texture {
            seq![SizeRequest::NextDrawable, SizeRequest::DrawableTexture]
        } else {
            seq![SizeRequest::NextDrawable, SizeRequest::DrawableTexture, SizeRequest::TextureExtent]
        }),
{
    reveal_with_fuel(size_run, 4);
    reveal_with_fuel(size_messages, 4);
}

/// Once finished, a size query keeps its answer whatever it is told.
pub proof fn lemma_size_query_finished_is_final(answer: Option<(u32, u32)>, reply: SizeReply)
    ensures
        SizeQuery::Finished(answer).spec_after(reply) == SizeQuery::Finished(answer),
        SizeQuery::Finished(answer).spec_request() == SizeRequest::Done(answer),
{
}

} // verus!
