use phasmoclock::on_top::{on_top_next, OnTopAction, ON_TOP_ATTEMPTS};

#[test]
fn found_window_is_put_on_top() {
    assert_eq!(on_top_next(0, true), OnTopAction::SetTopmost);
    assert_eq!(on_top_next(9, true), OnTopAction::SetTopmost);
}

#[test]
fn looks_ten_times_then_gives_up() {
    let mut attempt: u8 = 0;
    let mut looks = 0;
    loop {
        looks += 1;
        match on_top_next(attempt, false) {
            OnTopAction::Retry => attempt += 1,
            OnTopAction::GiveUp => break,
            OnTopAction::SetTopmost => panic!("nothing was found"),
        }
    }
    assert_eq!(looks, ON_TOP_ATTEMPTS as u32);
    assert_eq!(on_top_next(8, false), OnTopAction::Retry);
    assert_eq!(on_top_next(9, false), OnTopAction::GiveUp);
    assert_eq!(on_top_next(255, false), OnTopAction::GiveUp);
}
