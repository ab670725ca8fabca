use maglev::interface::{encoder_delta, Interface, PanelMode, Redraw};

#[test]
fn delta_without_wrap_is_difference() {
    assert_eq!(encoder_delta(10, 5), 5);
    assert_eq!(encoder_delta(5, 10), -5);
    assert_eq!(encoder_delta(1234, 1234), 0);
    assert_eq!(encoder_delta(32767, 0), 32767);
    assert_eq!(encoder_delta(0, 32767), -32767);
}

#[test]
fn delta_folds_large_jumps() {
    assert_eq!(encoder_delta(32768, 0), 32767);
    assert_eq!(encoder_delta(0, 32768), 32767);
    assert_eq!(encoder_delta(65535, 0), 0);
    assert_eq!(encoder_delta(0, 65535), 0);
    assert_eq!(encoder_delta(40000, 0), 25535);
    assert_eq!(encoder_delta(0, 40000), 25535);
    assert_eq!(encoder_delta(65534, 2), 3);
}

#[test]
fn new_panel_shows_height_once() {
    let mut p = Interface::new(100);
    assert_eq!(p.mode(), PanelMode::Idle(true));
    assert_eq!(p.last_count(), 100);
    assert_eq!(p.update(false, 0, 0, 0), Redraw::Show);
    assert_eq!(p.mode(), PanelMode::Idle(false));
    assert_eq!(p.update(false, 0, 0, 0), Redraw::Keep);
    assert_eq!(p.update(false, 7, 8, 9), Redraw::Keep);
    assert_eq!(p.last_count(), 100);
}

#[test]
fn click_enters_and_leaves_edit_mode() {
    let mut p = Interface::new(0);
    assert_eq!(p.update(false, 0, 0, 0), Redraw::Show);
    // press on two samples, then release: the click enters edit mode
    assert_eq!(p.update(true, 0, 0, 0), Redraw::Keep);
    assert_eq!(p.update(true, 0, 0, 0), Redraw::Keep);
    assert_eq!(p.update(false, 50, 54, 54), Redraw::Edit(4));
    assert_eq!(p.mode(), PanelMode::EditHeight);
    assert_eq!(p.last_count(), 54);
    // turning the encoder reports steps from the previous sample
    assert_eq!(p.update(false, 0, 60, 61), Redraw::Edit(6));
    assert_eq!(p.last_count(), 61);
    assert_eq!(p.update(false, 0, 58, 58), Redraw::Edit(-3));
    // a second click leaves edit mode and redraws once
    assert_eq!(p.update(true, 0, 58, 58), Redraw::Edit(0));
    assert_eq!(p.update(true, 0, 58, 58), Redraw::Edit(0));
    assert_eq!(p.update(false, 0, 70, 70), Redraw::Show);
    assert_eq!(p.mode(), PanelMode::Idle(false));
    assert_eq!(p.update(false, 0, 80, 80), Redraw::Keep);
    assert_eq!(p.last_count(), 58);
}

#[test]
fn edit_step_across_counter_wrap() {
    let mut p = Interface::new(0);
    p.update(true, 0, 0, 0);
    p.update(true, 0, 0, 0);
    assert_eq!(p.update(false, 65530, 65530, 65530), Redraw::Edit(0));
    assert_eq!(p.update(false, 0, 3, 3), Redraw::Edit(8));
    assert_eq!(p.update(false, 0, 3, 3), Redraw::Edit(0));
}
