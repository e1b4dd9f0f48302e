use yogurt::field::{MoveFlags, Position, START_X, START_Y};
use yogurt::game::{
    clock_expired, seeds_from_bytes, title_step, Game, InputEvent, Key, PlayStep, TitleStep,
    ROUND_MS,
};

#[test]
fn fresh_session() {
    let g = Game::new(1, 1);
    assert_eq!(g.player, Position { x: START_X, y: START_Y });
    assert_eq!(g.item, Position { x: 0, y: 0 });
    assert_eq!(g.high_score, 0);
    assert_eq!(g.last_score, 0);
}

#[test]
fn title_reacts_to_the_three_signals() {
    assert_eq!(title_step(InputEvent::Closed), TitleStep::Quit);
    assert_eq!(title_step(InputEvent::KeyPressed(Key::Return)), TitleStep::StartRound);
    assert_eq!(title_step(InputEvent::KeyPressed(Key::Q)), TitleStep::Quit);
    assert_eq!(title_step(InputEvent::KeyPressed(Key::Left)), TitleStep::Stay);
    assert_eq!(title_step(InputEvent::KeyReleased(Key::Return)), TitleStep::Stay);
    assert_eq!(title_step(InputEvent::KeyReleased(Key::Q)), TitleStep::Stay);
}

#[test]
fn start_round_arms_everything() {
    let mut g = Game::new(1, 1);
    let r = g.start_round(13);
    assert_eq!(r.score, 0);
    assert_eq!(r.frame, 0);
    assert_eq!(r.bg, 0);
    assert_eq!(r.num_bgs, 13);
    assert_eq!(r.flags, MoveFlags { left: false, down: false, up: false, right: false });
    // First placement of the (1, 1) stream.
    assert_eq!(g.item, Position { x: 0, y: 0 });
    // The stream continues across rounds: the next round sees the next draw.
    let _ = g.start_round(13);
    assert_eq!(g.item, Position { x: 152, y: 224 });
    let _ = g.start_round(13);
    assert_eq!(g.item, Position { x: 304, y: 126 });
}

#[test]
fn sessions_with_different_seeds_place_differently() {
    let mut a = Game::new(0xDEADBEEF, 0xFEEDFACE);
    let mut b = Game::new(0xFEEDFACE, 0xDEADBEEF);
    let _ = a.start_round(13);
    let _ = b.start_round(13);
    assert_eq!(a.item, Position { x: 67694, y: 57104 });
    assert_eq!(b.item, Position { x: 77498, y: 64328 });
}

#[test]
fn events_drive_the_movement_flags() {
    let mut g = Game::new(1, 1);
    let mut r = g.start_round(13);
    assert_eq!(r.handle_event(InputEvent::KeyPressed(Key::Left)), PlayStep::Continue);
    assert_eq!(r.handle_event(InputEvent::KeyPressed(Key::Up)), PlayStep::Continue);
    assert_eq!(r.flags, MoveFlags { left: true, down: false, up: true, right: false });
    assert_eq!(r.handle_event(InputEvent::KeyReleased(Key::Left)), PlayStep::Continue);
    assert_eq!(r.flags, MoveFlags { left: false, down: false, up: true, right: false });
    assert_eq!(r.handle_event(InputEvent::KeyPressed(Key::Down)), PlayStep::Continue);
    assert_eq!(r.handle_event(InputEvent::KeyPressed(Key::Right)), PlayStep::Continue);
    assert_eq!(r.flags, MoveFlags { left: false, down: true, up: true, right: true });
    // Return means nothing while playing.
    assert_eq!(r.handle_event(InputEvent::KeyPressed(Key::Return)), PlayStep::Continue);
    assert_eq!(r.flags, MoveFlags { left: false, down: true, up: true, right: true });
}

#[test]
fn quit_abandons_without_committing() {
    let mut g = Game::new(1, 1);
    g.commit_round(4);
    assert_eq!(g.high_score, 4);
    let mut r = g.start_round(13);
    for _ in 0..10 {
        g.frame_update(&mut r);
    }
    // A quit key abandons the round; a close signal ends the session.
    assert_eq!(r.handle_event(InputEvent::KeyPressed(Key::Q)), PlayStep::Abandon);
    assert_eq!(r.handle_event(InputEvent::Closed), PlayStep::Quit);
    // Nothing was committed on either path.
    assert_eq!(g.high_score, 4);
    assert_eq!(g.last_score, 4);
}

#[test]
fn background_cycles_every_15_frames() {
    let mut g = Game::new(1, 1);
    let mut r = g.start_round(13);
    // Seeded with (1, 1) the item sits at (0, 0) and the player rests at
    // the centre, so no pickup disturbs the run.
    for k in 1u32..=14 {
        g.frame_update(&mut r);
        assert_eq!(r.frame, k);
        assert_eq!(r.bg, 0);
    }
    g.frame_update(&mut r);
    assert_eq!(r.frame, 0);
    assert_eq!(r.bg, 1);
    // A full lap of the 13 backgrounds wraps back to 0.
    for _ in 0..12 * 15 {
        g.frame_update(&mut r);
    }
    assert_eq!(r.bg, 0);
    assert_eq!(r.score, 0);
}

#[test]
fn committed_scores_move_last_and_high() {
    let mut g = Game::new(1, 1);
    g.commit_round(5);
    assert_eq!((g.last_score, g.high_score), (5, 5));
    g.commit_round(3);
    assert_eq!((g.last_score, g.high_score), (3, 5));
    g.commit_round(7);
    assert_eq!((g.last_score, g.high_score), (7, 7));
    g.commit_round(7);
    assert_eq!((g.last_score, g.high_score), (7, 7));
}

#[test]
fn scoreless_round_commits_zero() {
    let mut g = Game::new(1, 1);
    let mut r = g.start_round(13);
    for _ in 0..30 {
        g.frame_update(&mut r);
    }
    assert_eq!(r.score, 0);
    assert!(clock_expired(ROUND_MS + 1));
    g.commit_round(r.score);
    assert_eq!(g.last_score, 0);
    assert_eq!(g.high_score, 0);
}

#[test]
fn pickup_scores_and_replaces_the_item() {
    let mut g = Game::new(1, 1);
    let mut r = g.start_round(13);
    // Walk the player onto the item at (0, 0): 320/5 = 64 frames left,
    // 240/5 = 48 frames up, pressed together.
    let _ = r.handle_event(InputEvent::KeyPressed(Key::Left));
    let _ = r.handle_event(InputEvent::KeyPressed(Key::Up));
    for _ in 0..58 {
        g.frame_update(&mut r);
    }
    assert_eq!(r.score, 0);
    g.frame_update(&mut r);
    assert_eq!(r.score, 1);
    // The item moved on to the next draw of the stream the moment it was
    // taken, so the same pair of positions cannot score twice.
    assert_eq!(g.item, Position { x: 152, y: 224 });
    // The next draws land so close to the origin that the player sweeps
    // them up on its way into the corner.
    for _ in 0..5 {
        g.frame_update(&mut r);
    }
    assert_eq!(r.score, 5);
    assert_eq!(g.player, Position { x: 0, y: 0 });
    assert_eq!(g.item, Position { x: 21344471, y: 15684734 });
}

#[test]
fn clock_expiry_is_strict() {
    assert!(!clock_expired(0));
    assert!(!clock_expired(ROUND_MS));
    assert!(clock_expired(ROUND_MS + 1));
}

#[test]
fn seed_words_take_the_first_eight_bytes() {
    let bits: [u8; 16] = [1, 2, 3, 4, 5, 6, 7, 8, 9, 10, 11, 12, 13, 14, 15, 16];
    let (s1, s2) = seeds_from_bytes(&bits);
    assert_eq!(s1, 0x0001_0002_0003_0004);
    assert_eq!(s2, 0x0005_0006_0007_0008);
    let tail_only: [u8; 16] = [0, 0, 0, 0, 0, 0, 0, 0, 9, 10, 11, 12, 13, 14, 15, 16];
    assert_eq!(seeds_from_bytes(&tail_only), (0, 0));
}
