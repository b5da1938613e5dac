use real_live_wall::audio::{wants_loopback, AudioSource, Ring};
use real_live_wall::config::{AudioArg, Mode};

#[test]
fn audio_choices_map_to_sources() {
    assert_eq!(AudioArg::Off.to_source(), None);
    assert_eq!(AudioArg::Auto.to_source(), Some(AudioSource::Auto));
    assert_eq!(AudioArg::Input.to_source(), Some(AudioSource::Input));
    assert_eq!(AudioArg::Loopback.to_source(), Some(AudioSource::Loopback));
}

#[test]
fn audio_choices_have_distinct_cli_names() {
    let all = [AudioArg::Auto, AudioArg::Input, AudioArg::Loopback, AudioArg::Off];
    let names: Vec<&str> = all.iter().map(|a| a.as_cli()).collect();
    assert_eq!(names, vec!["auto", "input", "loopback", "off"]);
    assert_ne!(Mode::Preview, Mode::Wallpaper);
}

#[test]
fn loopback_preference() {
    assert!(wants_loopback(AudioSource::Loopback, false));
    assert!(!wants_loopback(AudioSource::Input, true));
    assert!(wants_loopback(AudioSource::Auto, true));
    assert!(!wants_loopback(AudioSource::Auto, false));
}

#[test]
fn ring_keeps_latest_samples_oldest_first() {
    let mut ring: Ring<i32> = Ring::new(4, 0);
    let mut out = vec![9; 4];
    ring.snapshot(&mut out);
    assert_eq!(out, vec![0, 0, 0, 0]);
    for s in 1..=6 {
        ring.push(s);
    }
    ring.snapshot(&mut out);
    assert_eq!(out, vec![3, 4, 5, 6]);
    let mut longer = vec![0; 6];
    ring.snapshot(&mut longer);
    assert_eq!(longer, vec![3, 4, 5, 6, 3, 4]);
    let mut shorter = vec![0; 2];
    ring.snapshot(&mut shorter);
    assert_eq!(shorter, vec![3, 4]);
}
