use metal_live_resize::backing_scale::BackingScale;
use metal_live_resize::configure::{LayerSetup, SetupReply, SetupRequest};
use metal_live_resize::gravity::top_left_gravity;

/// Runs the setup with the backing scale reading as `read` and returns the
/// operations performed.
fn run_setup(read: Option<BackingScale>) -> Vec<SetupRequest> {
    let mut setup = LayerSetup::start();
    let mut performed = Vec::new();
    for _ in 0..10 {
        let request = setup.request();
        let reply = match request {
            SetupRequest::SetGravityTopLeft => SetupReply::GravitySet,
            SetupRequest::ReadBackingScale => SetupReply::BackingScaleRead(read),
            SetupRequest::SetContentsScale(_) => SetupReply::ContentsScaleSet,
            SetupRequest::Done => return performed,
        };
        performed.push(request);
        setup = setup.after(reply);
    }
    panic!("setup did not finish");
}

#[test]
fn gravity_name_is_top_left() {
    assert_eq!(top_left_gravity(), b"topLeft\0".to_vec());
}

#[test]
fn view_without_window_gets_only_gravity() {
    assert_eq!(
        run_setup(None),
        vec![SetupRequest::SetGravityTopLeft, SetupRequest::ReadBackingScale]
    );
}

#[test]
fn window_scale_becomes_contents_scale() {
    let scale = BackingScale { bits: 2.0f64.to_bits() };
    assert_eq!(
        run_setup(Some(scale)),
        vec![
            SetupRequest::SetGravityTopLeft,
            SetupRequest::ReadBackingScale,
            SetupRequest::SetContentsScale(scale)
        ]
    );
}

#[test]
fn setup_ignores_out_of_order_replies() {
    let setup = LayerSetup::start();
    assert_eq!(setup.after(SetupReply::ContentsScaleSet), LayerSetup::ApplyGravity);
    assert_eq!(setup.after(SetupReply::BackingScaleRead(None)), LayerSetup::ApplyGravity);
    let setup = setup.after(SetupReply::GravitySet);
    assert_eq!(setup, LayerSetup::AwaitBackingScale);
    assert_eq!(setup.after(SetupReply::GravitySet), LayerSetup::AwaitBackingScale);
    assert_eq!(LayerSetup::Finished.after(SetupReply::GravitySet), LayerSetup::Finished);
}

/// A layer's `contentsGravity` and `contentsScale`, as the setup writes them.
#[derive(Clone, Debug, PartialEq)]
struct FakeLayer {
    gravity: Vec<u8>,
    scale: f64,
}

fn configure(layer: &mut FakeLayer, window_scale: Option<f64>) {
    let mut setup = LayerSetup::start();
    loop {
        let reply = match setup.request() {
            SetupRequest::SetGravityTopLeft => {
                let mut name = top_left_gravity();
                name.pop();
                layer.gravity = name;
                SetupReply::GravitySet
            }
            SetupRequest::ReadBackingScale => SetupReply::BackingScaleRead(
                window_scale.map(|factor| BackingScale { bits: factor.to_bits() }),
            ),
            SetupRequest::SetContentsScale(scale) => {
                layer.scale = f64::from_bits(scale.bits);
                SetupReply::ContentsScaleSet
            }
            SetupRequest::Done => return,
        };
        setup = setup.after(reply);
    }
}

#[test]
fn configuring_twice_is_configuring_once() {
    for window_scale in [None, Some(2.0), Some(1.0)] {
        let start = FakeLayer { gravity: b"resize".to_vec(), scale: 1.5 };
        let mut once = start.clone();
        configure(&mut once, window_scale);
        let mut twice = start.clone();
        configure(&mut twice, window_scale);
        configure(&mut twice, window_scale);
        assert_eq!(once, twice);
        assert_eq!(once.gravity, b"topLeft".to_vec());
        assert_eq!(once.scale, window_scale.unwrap_or(1.5));
    }
}
