use ironboyadvance::gba::ppu::compose::composite_layers;
use ironboyadvance::gba::ppu::{Layer, Pixel};

fn bg(n: u8, color: u16, priority: u8) -> Pixel {
    Pixel { color, priority, layer: Layer::Bg(n) }
}

fn obj(color: u16, priority: u8) -> Pixel {
    Pixel { color, priority, layer: Layer::Obj { semi_transparent: false } }
}

#[test]
fn nothing_shown_gives_backdrop_twice() {
    let backdrop = Pixel::backdrop(0x1234);
    let r = composite_layers(&[None; 4], None, &[0, 1, 2, 3], &[0, 1, 2, 3], &[true; 4], true, backdrop);
    assert_eq!(r, (backdrop, backdrop));
}

#[test]
fn backgrounds_come_in_walk_order() {
    let backdrop = Pixel::backdrop(0);
    let lines = [Some(bg(0, 1, 2)), Some(bg(1, 2, 1)), Some(bg(2, 3, 0)), None];
    let r = composite_layers(&lines, None, &[2, 1, 0], &[2, 1, 0, 3], &[true; 4], false, backdrop);
    assert_eq!(r, (bg(2, 3, 0), bg(1, 2, 1)));
}

#[test]
fn single_background_sits_on_backdrop() {
    let backdrop = Pixel::backdrop(7);
    let lines = [None, Some(bg(1, 2, 1)), None, None];
    let r = composite_layers(&lines, None, &[1], &[0, 1, 2, 3], &[true; 4], true, backdrop);
    assert_eq!(r, (bg(1, 2, 1), backdrop));
}

#[test]
fn object_goes_above_background_of_equal_priority() {
    let backdrop = Pixel::backdrop(0);
    let lines = [Some(bg(0, 1, 1)), None, Some(bg(2, 3, 2)), None];
    let o = obj(9, 2);
    let r = composite_layers(&lines, Some(o), &[0, 2], &[1, 0, 2, 3], &[true; 4], true, backdrop);
    assert_eq!(r, (bg(0, 1, 1), o));
}

#[test]
fn object_on_top_of_everything() {
    let backdrop = Pixel::backdrop(0);
    let lines = [Some(bg(0, 1, 1)), None, None, None];
    let o = obj(9, 0);
    let r = composite_layers(&lines, Some(o), &[0], &[1, 0, 0, 0], &[true; 4], true, backdrop);
    assert_eq!(r, (o, bg(0, 1, 1)));
}

#[test]
fn object_below_every_background() {
    let backdrop = Pixel::backdrop(0);
    let lines = [Some(bg(0, 1, 0)), None, None, None];
    let o = obj(9, 3);
    let r = composite_layers(&lines, Some(o), &[0], &[0, 0, 0, 0], &[true; 4], true, backdrop);
    assert_eq!(r, (bg(0, 1, 0), o));
}

#[test]
fn object_hidden_by_its_window() {
    let backdrop = Pixel::backdrop(0);
    let lines = [Some(bg(0, 1, 1)), None, None, None];
    let o = obj(9, 0);
    let r = composite_layers(&lines, Some(o), &[0], &[1, 0, 0, 0], &[true; 4], false, backdrop);
    assert_eq!(r, (bg(0, 1, 1), backdrop));
}

#[test]
fn background_hidden_by_its_window_still_orders_the_object() {
    let backdrop = Pixel::backdrop(0);
    let lines = [Some(bg(0, 1, 1)), Some(bg(1, 2, 2)), None, None];
    let o = obj(9, 1);
    // Background 0 is walked but windowed out; the object still goes at its slot.
    let r = composite_layers(&lines, Some(o), &[0, 1], &[1, 2, 0, 0], &[false, true, true, true], true, backdrop);
    assert_eq!(r, (o, bg(1, 2, 2)));
}
