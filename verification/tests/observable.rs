use storyboard::data::observable::Observable as ValidObservable;
use storyboard::observable::Observable;

#[test]
fn observable_test() {
    let mut data = ValidObservable::new_valid(2);

    data.set(2);

    assert!(!data.valid());
}

#[test]
fn observable_observable_test() {
    let mut data = Observable::new_unchanged(2);

    assert!(!Observable::changed(&data));

    data = 2.into();

    assert!(Observable::changed(&data));
}

#[test]
fn invalidate_after_mark_reports_change_once() {
    let mut data = Observable::new_unchanged(5);
    Observable::mark(&mut data);
    assert!(Observable::invalidate(&mut data));
    assert!(!Observable::invalidate(&mut data));
    assert_eq!(*data, 5);
}

#[test]
fn new_observable_counts_as_changed() {
    let mut data = Observable::new("a");
    assert!(Observable::changed(&data));
    assert!(Observable::invalidate(&mut data));
    assert!(!Observable::changed(&data));
    assert_eq!(Observable::into_inner(data), "a");
}

#[test]
fn deref_mut_marks_changed() {
    let mut data = Observable::new_unchanged(1);
    *data = 7;
    assert!(Observable::changed(&data));
    assert_eq!(*data, 7);
}

#[test]
fn unmark_after_mark_reports_change_once() {
    let mut data = ValidObservable::new(3);
    assert!(!data.valid());
    assert!(data.unmark());
    assert!(data.valid());
    assert!(!data.unmark());
    data.mark();
    assert!(!data.valid());
    assert!(data.unmark());
    assert_eq!(data.inner(), 3);
}

#[test]
fn as_mut_invalidates() {
    let mut data = ValidObservable::new_valid(vec![1, 2]);
    data.as_mut().push(3);
    assert!(!data.valid());
    assert_eq!(data.as_ref(), &vec![1, 2, 3]);
}

#[test]
fn default_observables_start_unchanged_and_invalid() {
    let changed: Observable<u32> = Default::default();
    assert!(!Observable::changed(&changed));
    assert_eq!(*changed, 0);
    let mut valid: ValidObservable<String> = Default::default();
    assert!(!valid.valid());
    assert!(valid.unmark());
    valid.set("x".to_string());
    valid.mark();
    assert!(!valid.valid());
    assert!(valid.unmark());
    assert!(valid.valid());
}

#[test]
fn inner_is_the_last_value_set() {
    let mut data = ValidObservable::new_valid(1);
    data.mark();
    data.set(2);
    assert!(data.unmark());
    data.set(5);
    data.mark();
    assert!(data.unmark());
    assert!(!data.unmark());
    assert_eq!(data.inner(), 5);
    let mut untouched = ValidObservable::new(9);
    untouched.mark();
    untouched.unmark();
    assert_eq!(untouched.inner(), 9);
}
