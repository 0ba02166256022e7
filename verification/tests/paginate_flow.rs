use docpress::error::Error;
use docpress::paginate::{paginate_all, FlowState, Paginator};

#[test]
fn boxes_flow_down_one_page_until_it_is_full() {
    let mut p = Paginator::new(100);
    assert_eq!(p.place_box(60).unwrap(), (0, 0));
    // An exact fit is a fit, not an overflow.
    assert_eq!(p.place_box(40).unwrap(), (0, 60));
    assert_eq!(p.pages, 1);
    // The next box exceeds the remaining height: exactly one break.
    assert_eq!(p.place_box(10).unwrap(), (1, 0));
    assert_eq!(p.pages, 2);
    assert_eq!(p.state, FlowState::Flowing);
}

#[test]
fn an_oversized_box_is_placed_after_a_single_break() {
    let mut p = Paginator::new(100);
    assert_eq!(p.place_box(150).unwrap(), (1, 0));
    assert_eq!(p.pages, 2);
    // It overflows its page; the following box breaks again.
    assert_eq!(p.place_box(10).unwrap(), (2, 0));
}

#[test]
fn closed_paginators_refuse_placement() {
    let mut p = Paginator::new(100);
    p.close();
    assert_eq!(p.state, FlowState::Closed);
    assert_eq!(p.place_box(10).unwrap_err(), Error::DocumentClosedError);
}

#[test]
fn pagination_is_deterministic_across_runs() {
    let heights: Vec<u64> = vec![300, 300, 200, 100, 762, 5];
    let (pages_a, ys_a, count_a) = paginate_all(&heights, 762);
    let (pages_b, ys_b, count_b) = paginate_all(&heights, 762);
    assert_eq!(pages_a, pages_b);
    assert_eq!(ys_a, ys_b);
    assert_eq!(count_a, count_b);
}

#[test]
fn page_assignment_follows_the_cursor() {
    let heights: Vec<u64> = vec![300, 300, 200, 100];
    let (pages, ys, count) = paginate_all(&heights, 762);
    assert_eq!(pages, vec![0, 0, 1, 1]);
    assert_eq!(ys, vec![0, 300, 0, 200]);
    assert_eq!(count, 2);
}

#[test]
fn an_empty_document_still_opens_one_page() {
    let (pages, ys, count) = paginate_all(&vec![], 762);
    assert!(pages.is_empty());
    assert!(ys.is_empty());
    assert_eq!(count, 1);
}
