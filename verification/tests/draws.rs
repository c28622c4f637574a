use prng_wrapper::helper::kept_neighbours;
use prng_wrapper::py_rng::{PyStart, PythonRng, RngWrapper};
use prng_wrapper::rng_wrapper;
use rand::rngs::StdRng;
use rand::SeedableRng;

fn is_draw(from: &[usize], chosen: &[usize]) -> bool {
    // every chosen entry comes from a position of `from` used only once
    let mut used = vec![false; from.len()];
    chosen.iter().all(|c| {
        match (0..from.len()).find(|&i| !used[i] && from[i] == *c) {
            Some(i) => {
                used[i] = true;
                true
            }
            None => false,
        }
    })
}

#[test]
fn kept_neighbours_without_exclusion_keeps_all() {
    let p = vec![99, 119, 121, 125];
    assert_eq!(kept_neighbours(&p, 4, None), vec![0, 1, 2, 3]);
}

#[test]
fn kept_neighbours_excludes_patch_ids_minus_one() {
    let p = vec![99, 119, 121, 125];
    let exclude = vec![118, 124, 7];
    assert_eq!(kept_neighbours(&p, 4, Some(&exclude)), vec![0, 2]);
}

#[test]
fn kept_neighbours_empty_input_gives_empty_list() {
    let p: Vec<usize> = vec![];
    assert_eq!(kept_neighbours(&p, 0, None), Vec::<usize>::new());
    let exclude = vec![1];
    assert_eq!(kept_neighbours(&p, 0, Some(&exclude)), Vec::<usize>::new());
}

#[test]
fn kept_neighbours_reads_only_the_weighted_positions() {
    let p = vec![5, 6, 7];
    let exclude = vec![4, 6];
    assert_eq!(kept_neighbours(&p, 2, Some(&exclude)), vec![1]);
    let exclude_all = vec![4, 5, 6];
    assert_eq!(kept_neighbours(&p, 3, Some(&exclude_all)), Vec::<usize>::new());
}

#[test]
fn new_python_rng_reports_seed_and_no_state() {
    let rng = PythonRng::new(12345);
    assert_eq!(rng.return_info(), (12345, vec![], 0));
    assert_eq!(rng.seed, 12345);
    assert!(matches!(rng.draw_start(), PyStart::Seed(12345)));
}

#[test]
fn draw_resumes_from_recorded_state() {
    let mut rng = PythonRng::new(42);
    rng.record_draw(vec![7, 8, 9], 3);
    assert_eq!(rng.return_info(), (42, vec![7, 8, 9], 3));
    match rng.draw_start() {
        PyStart::Resume(state, iter) => {
            assert_eq!(state, vec![7, 8, 9]);
            assert_eq!(iter, 3);
        }
        PyStart::Seed(_) => panic!("an active generator resumes"),
    }
    rng.record_draw(vec![1, 2], 624);
    assert_eq!(rng.return_info(), (42, vec![1, 2], 624));
    assert!(matches!(rng.draw_start(), PyStart::Resume(ref s, 624) if *s == vec![1, 2]));
}

#[test]
fn first_draw_activates_and_later_draws_resume() {
    let mut rng = PythonRng::new(12345);
    assert!(matches!(rng.draw_start(), PyStart::Seed(12345)));
    // a weighted choice, as the first draw, reported position 2
    rng.record_draw(vec![4; 624], 2);
    assert_eq!(rng.return_info(), (12345, vec![4; 624], 2));
    assert!(matches!(rng.draw_start(), PyStart::Resume(ref s, 2) if *s == vec![4; 624]));
    // the second weighted choice resumed and reported position 4
    rng.record_draw(vec![5; 624], 4);
    assert_eq!(rng.return_info(), (12345, vec![5; 624], 4));
    assert!(matches!(rng.draw_start(), PyStart::Resume(ref s, 4) if *s == vec![5; 624]));
}

#[test]
fn wrapper_return_info_of_python_generator() {
    let w = RngWrapper::PythonRng(PythonRng::new(9));
    assert_eq!(w.return_info(), (9, vec![], 0));
}

#[test]
fn choose_multiple_draws_distinct_positions() {
    let mut rng = StdRng::seed_from_u64(654);
    let mut w = RngWrapper::RustRng(&mut rng);
    let from = vec![0, 1, 2, 3, 4, 5];
    let chosen = w.choose_multiple(&from, 2);
    assert_eq!(chosen.len(), 2);
    assert_ne!(chosen[0], chosen[1]);
    assert!(is_draw(&from, &chosen));
}

#[test]
fn choose_multiple_more_than_available_returns_reordering() {
    let mut rng = StdRng::seed_from_u64(12345);
    let mut w = RngWrapper::RustRng(&mut rng);
    let from = vec![3, 3, 8, 1];
    let mut chosen = w.choose_multiple(&from, 10);
    assert_eq!(chosen.len(), 4);
    chosen.sort();
    assert_eq!(chosen, vec![1, 3, 3, 8]);
}

#[test]
fn choose_multiple_of_nothing() {
    let mut rng = StdRng::seed_from_u64(1);
    let mut w = RngWrapper::RustRng(&mut rng);
    assert_eq!(w.choose_multiple(&vec![0, 1, 2], 0), Vec::<usize>::new());
    assert_eq!(w.choose_multiple(&vec![], 3), Vec::<usize>::new());
}

#[test]
fn context_wrapper_choose_multiple() {
    let mut rng = StdRng::seed_from_u64(42);
    let mut w = rng_wrapper::RngWrapper::RustRng(&mut rng);
    let from = vec![0, 1, 2, 3, 4, 5, 6, 7, 8, 9];
    for _ in 0..10 {
        let chosen = w.choose_multiple(&from, 2);
        assert_eq!(chosen.len(), 2);
        assert!(chosen[0] < 10 && chosen[1] < 10);
        assert_ne!(chosen[0], chosen[1]);
    }
}

#[test]
fn same_seed_same_draws() {
    let mut rng_a = StdRng::seed_from_u64(654);
    let mut rng_b = StdRng::seed_from_u64(654);
    let from = vec![10, 20, 30, 40, 50, 60];
    let a = RngWrapper::RustRng(&mut rng_a).choose_multiple(&from, 3);
    let b = rng_wrapper::RngWrapper::RustRng(&mut rng_b).choose_multiple(&from, 3);
    assert_eq!(a, b);
}
