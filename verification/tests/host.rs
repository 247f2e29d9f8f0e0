use illumos_host::{
    AudioInfo, Device, Devices, DevicesError, Host, HostUnavailable, MixerReply, MixerRequest,
    Progress,
};

fn info(n: u32) -> AudioInfo {
    AudioInfo {
        devnode: format!("/dev/sound/audio{}", n),
        name: format!("audio{}", n),
        max_channels: n + 1,
        min_rate: 4000,
        max_rate: 96000,
    }
}

/// Lets the listing run against `replies`; gives what was asked and the outcome.
fn run(replies: Vec<MixerReply>) -> (Vec<MixerRequest>, Option<Result<Devices, DevicesError>>) {
    let mut asked = Vec::new();
    let mut scan = Devices::new();
    for reply in replies {
        asked.push(scan.request());
        match scan.step(reply) {
            Progress::Ask(next) => scan = next,
            Progress::Done(outcome) => return (asked, Some(outcome)),
        }
    }
    (asked, None)
}

fn description(outcome: Option<Result<Devices, DevicesError>>) -> String {
    match outcome {
        Some(Err(DevicesError::BackendSpecific { err })) => err.description,
        _ => panic!("the listing did not fail"),
    }
}

#[test]
fn host_can_always_be_had() {
    let host: Result<Host, HostUnavailable> = Host::new();
    assert!(host.is_ok());
    assert!(Host::is_available());
}

#[test]
fn default_devices_are_behind_dev_dsp() {
    let host = Host::new().unwrap();
    let default = Device { devnode: "/dev/dsp".to_string(), info: None };
    assert_eq!(host.default_input_device(), Some(default.clone()));
    assert_eq!(host.default_output_device(), Some(default.clone()));
    assert_eq!(default.name(), Ok("default".to_string()));
}

#[test]
fn devices_are_asked_for_in_turn() {
    let (asked, outcome) = run(vec![
        MixerReply::Opened(Ok(())),
        MixerReply::Sysinfo(Ok(3)),
        MixerReply::Audioinfo(Ok(info(0))),
        MixerReply::Audioinfo(Ok(info(1))),
        MixerReply::Audioinfo(Ok(info(2))),
    ]);
    assert_eq!(
        asked,
        vec![
            MixerRequest::Open,
            MixerRequest::Sysinfo,
            MixerRequest::Audioinfo(0),
            MixerRequest::Audioinfo(1),
            MixerRequest::Audioinfo(2),
        ]
    );
    let devices = outcome.unwrap().unwrap();
    assert_eq!(devices.info, vec![info(0), info(1), info(2)]);
}

#[test]
fn devices_come_last_first() {
    let mut devices = Devices { info: vec![info(0), info(1)] };
    let second = devices.next().unwrap();
    assert_eq!(second.devnode, "/dev/sound/audio1");
    assert_eq!(second.name(), Ok("audio1".to_string()));
    assert_eq!(second.info, Some(info(1)));
    let first = devices.next().unwrap();
    assert_eq!(first, Device { devnode: "/dev/sound/audio0".to_string(), info: Some(info(0)) });
    assert_eq!(devices.next(), None);
    assert_eq!(devices.next(), None);
}

#[test]
fn no_devices_by_default() {
    assert_eq!(Devices::default().next(), None);
}

#[test]
fn no_devices_at_all() {
    let host = Host::new().unwrap();
    assert_eq!(host.devices().request(), MixerRequest::Open);
    let (asked, outcome) = run(vec![MixerReply::Opened(Ok(())), MixerReply::Sysinfo(Ok(0))]);
    assert_eq!(asked, vec![MixerRequest::Open, MixerRequest::Sysinfo]);
    assert_eq!(outcome.unwrap().unwrap().next(), None);
}

#[test]
fn mixer_does_not_open() {
    let (asked, outcome) = run(vec![MixerReply::Opened(Err("no such file".to_string()))]);
    assert_eq!(asked, vec![MixerRequest::Open]);
    assert_eq!(description(outcome), "open(\"/dev/mixer\"): no such file");
}

#[test]
fn devices_cannot_be_counted() {
    let (_, outcome) =
        run(vec![MixerReply::Opened(Ok(())), MixerReply::Sysinfo(Err("EIO".to_string()))]);
    assert_eq!(description(outcome), "SNDCTL_SYSINFO: EIO");
}

#[test]
fn first_failure_ends_the_listing() {
    let mut replies = vec![MixerReply::Opened(Ok(())), MixerReply::Sysinfo(Ok(30))];
    for n in 0..12 {
        replies.push(MixerReply::Audioinfo(Ok(info(n))));
    }
    replies.push(MixerReply::Audioinfo(Err("gone".to_string())));
    replies.push(MixerReply::Audioinfo(Ok(info(13))));
    let (asked, outcome) = run(replies);
    assert_eq!(asked.len(), 15);
    assert_eq!(asked[14], MixerRequest::Audioinfo(12));
    assert_eq!(description(outcome), "SNDCTL_AUDIOINFO 12: gone");
}

#[test]
fn listing_is_not_over_before_the_last_device() {
    let (asked, outcome) = run(vec![
        MixerReply::Opened(Ok(())),
        MixerReply::Sysinfo(Ok(2)),
        MixerReply::Audioinfo(Ok(info(0))),
    ]);
    assert_eq!(asked.len(), 3);
    assert!(outcome.is_none());
}
