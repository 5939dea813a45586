use dwarf_seeks_fortune::components::movement::{Pos, Steering};
use dwarf_seeks_fortune::systems::rewind::{
    record_position, rewind_control, rewind_outcome, rewind_step, RewindStep,
};
use dwarf_seeks_fortune::resources::assets::{AnimType, Assets, SpriteType};
use dwarf_seeks_fortune::resources::config::{faster_preset, slower_preset};
use dwarf_seeks_fortune::resources::gui::{UiHandles, UiType};
use dwarf_seeks_fortune::resources::history::{Frame, History};
use dwarf_seeks_fortune::resources::resize::ResizeState;
use dwarf_seeks_fortune::resources::win::WinCondition;

#[test]
fn newest_frame_comes_first() {
    let mut h = History::default();
    assert_eq!(h.len(), 0);
    h.add_frame(Frame::new(Pos::new(1, 1)));
    h.add_frame(Frame::new(Pos::new(2, 1)));
    assert_eq!(h.len(), 2);
    assert_eq!(h.frame(0).player_position(), Pos::new(2, 1));
    assert_eq!(h.frame(1).player_position(), Pos::new(1, 1));
}

#[test]
fn missing_assets_fall_back_to_not_found() {
    let mut a: Assets<&str, u8> = Assets::new();
    a.put_still(SpriteType::NotFound, "missing");
    a.put_still(SpriteType::Blocks, "blocks");
    a.put_animated(AnimType::NotFound, 0);
    assert_eq!(*a.get_still(&SpriteType::Blocks), "blocks");
    assert_eq!(*a.get_still(&SpriteType::Frame), "missing");
    assert_eq!(*a.get_animated(&AnimType::Mob), 0);
    a.put_animated(AnimType::Mob, 5);
    assert_eq!(*a.get_animated(&AnimType::Mob), 5);
    a.put_still(SpriteType::Blocks, "blocks2");
    assert_eq!(*a.get_still(&SpriteType::Blocks), "blocks2");
}

#[test]
fn ui_handles_by_kind() {
    let h = UiHandles::new().put_handle(UiType::Fps, 1).put_handle(UiType::Paused, 2);
    assert_eq!(*h.get_handle(&UiType::Fps), 1);
    assert_eq!(*h.get_handle(&UiType::Paused), 2);
    let h = h.put_handle(UiType::Fps, 3);
    assert_eq!(*h.get_handle(&UiType::Fps), 3);
}

#[test]
fn speed_presets() {
    let presets = vec![1, 2, 4, 8];
    assert_eq!(faster_preset(&presets, 2), Some(2));
    assert_eq!(faster_preset(&presets, 0), Some(0));
    assert_eq!(faster_preset(&presets, 8), None);
    assert_eq!(slower_preset(&presets, 4), Some(1));
    assert_eq!(slower_preset(&presets, 100), Some(3));
    assert_eq!(slower_preset(&presets, 1), None);
    assert_eq!(faster_preset(&vec![], 1), None);
}

#[test]
fn resizing_starts_idle() {
    assert_eq!(ResizeState::default(), ResizeState::Idle);
}

#[test]
fn popping_gives_back_the_newest_frame() {
    let mut h = History::default();
    assert!(h.pop_frame().is_none());
    h.add_frame(Frame::new(Pos::new(1, 1)));
    h.add_frame(Frame::new(Pos::new(3, 4)));
    let f = h.pop_frame().expect("a frame was recorded");
    assert_eq!(f.player_position(), Pos::new(3, 4));
    assert_eq!(h.len(), 1);
    assert_eq!(h.frame(0).player_position(), Pos::new(1, 1));
    let g = h.pop_frame().expect("one frame is left");
    assert_eq!(g.player_position(), Pos::new(1, 1));
    assert!(h.pop_frame().is_none());
    assert_eq!(h.len(), 0);
}

#[test]
fn level_is_won_once_every_key_is_collected() {
    let mut w = WinCondition::default();
    assert!(w.all_collected());
    w.add_key(&Pos::new(2, 3));
    w.add_key(&Pos::new(7, 1));
    w.add_key(&Pos::new(2, 3));
    assert_eq!(w.len(), 2);
    assert_eq!(w.key(0), Pos::new(2, 3));
    assert_eq!(w.key(1), Pos::new(7, 1));
    assert!(!w.all_collected());
    w.set_key_collected(&Pos::new(2, 3));
    assert_eq!(w.len(), 1);
    assert_eq!(w.key(0), Pos::new(7, 1));
    assert!(!w.all_collected());
    w.set_key_collected(&Pos::new(5, 5));
    assert_eq!(w.len(), 1);
    w.set_key_collected(&Pos::new(7, 1));
    assert!(w.all_collected());
}

#[test]
fn moves_are_recorded_and_rewound() {
    let mut h = History::default();
    assert!(record_position(&mut h, Pos::new(0, 0), Pos::new(1, 0), false));
    assert!(!record_position(&mut h, Pos::new(1, 0), Pos::new(1, 0), false));
    assert_eq!(h.len(), 1);
    assert!(record_position(&mut h, Pos::new(1, 0), Pos::new(1, 0), true));
    assert!(record_position(&mut h, Pos::new(1, 0), Pos::new(2, 0), false));
    assert_eq!(h.len(), 3);
    let mut s = Steering::new(Pos::new(2, 0), Pos::new(2, 2));
    s.destination = Pos::new(3, 0);
    let f = rewind_step(&mut h, &mut s).expect("frames were recorded");
    assert_eq!(f.player_position(), Pos::new(2, 0));
    assert_eq!(s.pos, Pos::new(2, 0));
    assert_eq!(s.destination, Pos::new(2, 0));
    rewind_step(&mut h, &mut s);
    rewind_step(&mut h, &mut s);
    assert_eq!(s.pos, Pos::new(1, 0));
    assert_eq!(h.len(), 0);
    let before = s;
    assert!(rewind_step(&mut h, &mut s).is_none());
    assert_eq!(s, before);
}

#[test]
fn stored_assets_and_interfaces_are_known() {
    let mut a: Assets<&str, u8> = Assets::new();
    assert!(!a.has_still(&SpriteType::NotFound));
    a.put_still(SpriteType::Frame, "frame");
    assert!(a.has_still(&SpriteType::Frame));
    assert!(!a.has_still(&SpriteType::Blocks));
    assert!(!a.has_animated(&AnimType::Mob));
    a.put_animated(AnimType::Mob, 1);
    assert!(a.has_animated(&AnimType::Mob));
    assert!(!a.has_animated(&AnimType::NotFound));
    let h: UiHandles<u8> = UiHandles::new();
    assert!(!h.has_handle(&UiType::Editor));
    let h = h.put_handle(UiType::Editor, 4);
    assert!(h.has_handle(&UiType::Editor));
    assert!(!h.has_handle(&UiType::MainMenu));
}

#[test]
fn holding_rewind_steps_back_and_releasing_records_a_key_frame() {
    assert_eq!(rewind_control(false, true, true), RewindStep::Start);
    assert_eq!(rewind_control(true, true, false), RewindStep::Tick);
    assert_eq!(rewind_control(true, true, true), RewindStep::Renew);
    assert_eq!(rewind_control(true, false, true), RewindStep::Stop);
    assert_eq!(rewind_control(false, false, true), RewindStep::Idle);
    assert_eq!(rewind_outcome(RewindStep::Start), (true, false));
    assert_eq!(rewind_outcome(RewindStep::Tick), (true, false));
    assert_eq!(rewind_outcome(RewindStep::Stop), (false, true));
    assert_eq!(rewind_outcome(RewindStep::Idle), (false, false));
}
