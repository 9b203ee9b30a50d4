use metal_live_resize::drawable_size::{
    texture_extent, DrawableSnapshot, SizeQuery, SizeReply, SizeRequest,
};

/// Runs a size query against `layer`, answering each request as the layer
/// would, and returns the requests made and the answer.
fn run_query(layer: &DrawableSnapshot) -> (Vec<SizeRequest>, Option<(u32, u32)>) {
    let mut query = SizeQuery::start();
    let mut sent = Vec::new();
    for _ in 0..10 {
        let request = query.request();
        let reply = match request {
            SizeRequest::NextDrawable => SizeReply::Drawable { present: layer.drawable },
            SizeRequest::DrawableTexture => SizeReply::Texture { present: layer.texture },
            SizeRequest::TextureExtent => SizeReply::Extent {
                width: layer.width,
                height: layer.height,
            },
            SizeRequest::Done(answer) => return (sent, answer),
        };
        sent.push(request);
        query = query.after(reply);
    }
    panic!("size query did not finish");
}

fn layer(drawable: bool, texture: bool, width: u64, height: u64) -> DrawableSnapshot {
    DrawableSnapshot { drawable, texture, width, height }
}

#[test]
fn extent_keeps_ordinary_sizes() {
    assert_eq!(texture_extent(1920, 1080), (1920, 1080));
    assert_eq!(texture_extent(0, 0), (0, 0));
    assert_eq!(texture_extent(u32::MAX as u64, 1), (u32::MAX, 1));
}

#[test]
fn extent_truncates_to_low_32_bits() {
    assert_eq!(texture_extent((1u64 << 32) + 5, u64::MAX), (5, u32::MAX));
    assert_eq!(texture_extent(1u64 << 32, (1u64 << 33) + 7), (0, 7));
}

#[test]
fn exhausted_pool_skips_the_frame() {
    let (sent, answer) = run_query(&layer(false, true, 800, 600));
    assert_eq!(sent, vec![SizeRequest::NextDrawable]);
    assert_eq!(answer, None);
}

#[test]
fn drawable_without_texture_skips_the_frame() {
    let (sent, answer) = run_query(&layer(true, false, 800, 600));
    assert_eq!(sent, vec![SizeRequest::NextDrawable, SizeRequest::DrawableTexture]);
    assert_eq!(answer, None);
}

#[test]
fn texture_size_is_reported() {
    let (sent, answer) = run_query(&layer(true, true, 2560, 1600));
    assert_eq!(
        sent,
        vec![
            SizeRequest::NextDrawable,
            SizeRequest::DrawableTexture,
            SizeRequest::TextureExtent
        ]
    );
    assert_eq!(answer, Some((2560, 1600)));
}

#[test]
fn texture_size_is_truncated() {
    let (_, answer) = run_query(&layer(true, true, (1u64 << 32) + 3, 9));
    assert_eq!(answer, Some((3, 9)));
}

#[test]
fn unexpected_reply_keeps_the_stage() {
    let query = SizeQuery::start();
    assert_eq!(query.after(SizeReply::Texture { present: true }), SizeQuery::AwaitDrawable);
    let query = query.after(SizeReply::Drawable { present: true });
    assert_eq!(query, SizeQuery::AwaitTexture);
    assert_eq!(
        query.after(SizeReply::Extent { width: 1, height: 2 }),
        SizeQuery::AwaitTexture
    );
}

#[test]
fn finished_query_keeps_its_answer() {
    let done = SizeQuery::Finished(Some((4, 5)));
    assert_eq!(done.after(SizeReply::Drawable { present: false }), done);
    assert_eq!(done.after(SizeReply::Extent { width: 9, height: 9 }), done);
    assert_eq!(done.request(), SizeRequest::Done(Some((4, 5))));
}
