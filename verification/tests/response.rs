use aurora::{route_for, ResponseFlag, ResponseRoute};

#[test]
fn route_for_first_response_is_initial() {
    assert_eq!(route_for(true), ResponseRoute::Initial);
    assert_eq!(route_for(false), ResponseRoute::Edit);
}

#[test]
fn only_the_first_claim_wins_across_copies() {
    let flag = ResponseFlag::new();
    let copy = flag.clone();
    assert!(flag.claim());
    assert!(!copy.claim());
    assert!(!flag.claim());
}

#[test]
fn first_send_creates_then_later_sends_edit() {
    let flag = ResponseFlag::new();
    assert_eq!(flag.send_route(), ResponseRoute::Initial);
    assert_eq!(flag.clone().send_route(), ResponseRoute::Edit);
    assert_eq!(flag.send_route(), ResponseRoute::Edit);
}

#[test]
fn defer_after_send_does_nothing() {
    let flag = ResponseFlag::new();
    assert_eq!(flag.send_route(), ResponseRoute::Initial);
    // a deferral only responds when its claim is the first one
    assert!(!flag.claim());
}
