use lunar_engine::context::{quit, Context, RedrawAction};

#[test]
fn quit_tears_down_once() {
    let mut ctx = Context::new(1920, 1080);
    assert_eq!(ctx.redraw(), RedrawAction::Frame);
    quit(&mut ctx);
    assert!(ctx.quit_requested());
    assert_eq!(ctx.redraw(), RedrawAction::Teardown);
    assert_eq!(ctx.redraw(), RedrawAction::Idle);
}

#[test]
fn close_request_tears_down() {
    let mut ctx = Context::new(800, 600);
    ctx.close_requested();
    assert_eq!(ctx.redraw(), RedrawAction::Teardown);
    assert_eq!(ctx.redraw(), RedrawAction::Idle);
}

#[test]
fn resize_updates_resolution() {
    let mut ctx = Context::new(800, 600);
    ctx.resize(1280, 720);
    assert_eq!(ctx.resolution(), (1280, 720));
}
