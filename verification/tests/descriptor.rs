use pcm_mixer::StreamDescriptor;

#[test]
fn new_descriptor_leaves_everything_to_the_backend() {
    let desired = StreamDescriptor::new();
    assert_eq!(desired.freq(), None);
    assert_eq!(desired.channels(), None);
    assert_eq!(desired.samples(), None);
}

#[test]
fn default_descriptor_is_the_new_one() {
    let desired = StreamDescriptor::default();
    assert_eq!(desired.freq(), None);
    assert_eq!(desired.channels(), None);
    assert_eq!(desired.samples(), None);
}

#[test]
fn descriptor_setters_change_one_field() {
    let mut desired = StreamDescriptor::new();
    desired.set_freq(Some(32_000));
    assert_eq!(desired.freq(), Some(32_000));
    assert_eq!(desired.channels(), None);
    assert_eq!(desired.samples(), None);
    desired.set_channels(Some(1));
    assert_eq!(desired.freq(), Some(32_000));
    assert_eq!(desired.channels(), Some(1));
    assert_eq!(desired.samples(), None);
    desired.set_samples(Some(512));
    assert_eq!(desired.freq(), Some(32_000));
    assert_eq!(desired.channels(), Some(1));
    assert_eq!(desired.samples(), Some(512));
    desired.set_freq(None);
    assert_eq!(desired.freq(), None);
    assert_eq!(desired.channels(), Some(1));
    assert_eq!(desired.samples(), Some(512));
}
