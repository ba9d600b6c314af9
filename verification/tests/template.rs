use bevy_compose::template::{
    is_changed, reads_component, replace_if, run_after, schedule, TemplateInfo,
};

fn info(reads: &[usize], output: usize) -> TemplateInfo {
    TemplateInfo { reads: reads.to_vec(), output }
}

#[test]
fn reads_component_finds_what_is_there() {
    assert!(reads_component(&vec![3, 1, 4], 4));
    assert!(reads_component(&vec![3, 1, 4], 3));
    assert!(!reads_component(&vec![3, 1, 4], 2));
    assert!(!reads_component(&vec![], 0));
}

#[test]
fn template_runs_after_the_producers_of_what_it_reads() {
    let templates = vec![info(&[], 10), info(&[10], 11), info(&[11, 10], 12), info(&[99], 13)];
    assert_eq!(run_after(&templates, 0), Vec::<usize>::new());
    assert_eq!(run_after(&templates, 1), vec![0]);
    assert_eq!(run_after(&templates, 2), vec![0, 1]);
    assert_eq!(run_after(&templates, 3), Vec::<usize>::new());
    assert_eq!(run_after(&templates, 4), Vec::<usize>::new());
}

#[test]
fn producer_is_listed_once_however_often_it_is_read() {
    let templates = vec![info(&[], 7), info(&[7, 7, 7], 8)];
    assert_eq!(run_after(&templates, 1), vec![0]);
}

#[test]
fn template_that_reads_its_own_output_is_listed() {
    let templates = vec![info(&[5], 5), info(&[5], 6)];
    assert_eq!(run_after(&templates, 0), vec![0]);
    assert_eq!(run_after(&templates, 1), vec![0]);
}

#[test]
fn two_producers_of_one_component_are_both_listed() {
    let templates = vec![info(&[], 5), info(&[5], 6), info(&[], 5)];
    assert_eq!(run_after(&templates, 1), vec![0, 2]);
}

#[test]
fn schedule_lists_every_template() {
    let templates = vec![info(&[12], 10), info(&[10], 11), info(&[11, 10], 12)];
    assert_eq!(schedule(&templates), vec![vec![2], vec![0], vec![0, 1]]);
    assert_eq!(schedule(&Vec::new()), Vec::<Vec<usize>>::new());
}

#[test]
fn is_changed_stores_a_snapshot_that_differs() {
    let mut state = vec![1, 2];
    assert!(!is_changed(vec![1, 2], &mut state));
    assert_eq!(state, vec![1, 2]);
    assert!(is_changed(vec![1, 3], &mut state));
    assert_eq!(state, vec![1, 3]);
    assert!(!is_changed(vec![1, 3], &mut state));
    assert!(is_changed(vec![1], &mut state));
    assert_eq!(state, vec![1]);
    assert!(is_changed(vec![1, 3], &mut state));
    assert!(is_changed(vec![], &mut state));
    assert_eq!(state, Vec::<i32>::new());
    assert!(!is_changed(vec![], &mut state));
}

#[test]
fn replace_if_follows_the_given_comparison() {
    let mut state = vec![1];
    assert!(!replace_if(vec![2], &mut state, false));
    assert_eq!(state, vec![1]);
    assert!(replace_if(vec![1], &mut state, true));
    assert_eq!(state, vec![1]);
    assert!(replace_if(vec![3, 4], &mut state, true));
    assert_eq!(state, vec![3, 4]);
}
