use tun_bench::config::{
    device_config, runtime_choice, worker_routes, Mode, Route, RuntimeChoice, CHANNEL_CAPACITY, MTU,
    PREFIX_LEN,
};

const ALL: [Mode; 8] = [
    Mode::AsyncNormal,
    Mode::AsyncNormalChannel,
    Mode::AsyncGsoFramed,
    Mode::AsyncTsoChannel,
    Mode::SyncNormal,
    Mode::SyncNormalChannel,
    Mode::SyncGsoChannel,
    Mode::SyncGsoConcurrent,
];

#[test]
fn mode_table() {
    // (offload, channel, async, workers per direction)
    let want = [
        (false, false, true, 1),
        (false, true, true, 1),
        (true, true, true, 1),
        (true, true, true, 1),
        (false, false, false, 1),
        (false, true, false, 1),
        (true, true, false, 1),
        (true, false, false, 2),
    ];
    for (mode, w) in ALL.iter().zip(want.iter()) {
        assert_eq!(
            (mode.uses_offload(), mode.uses_channel(), mode.is_async(), mode.workers_per_direction()),
            *w,
            "{:?}",
            mode
        );
    }
}

#[test]
fn device_config_values() {
    let c = device_config(Mode::SyncNormal, "tun11".to_string(), [10, 0, 1, 1]);
    assert_eq!(c.name, "tun11");
    assert_eq!(c.ipv4, [10, 0, 1, 1]);
    assert_eq!(c.prefix_len, 24);
    assert_eq!(c.mtu, 1500);
    assert!(!c.offload);
    let c = device_config(Mode::AsyncTsoChannel, "tun22".to_string(), [10, 0, 2, 1]);
    assert!(c.offload);
    assert_eq!(PREFIX_LEN, 24);
    assert_eq!(MTU, 1500);
    assert_eq!(CHANNEL_CAPACITY, 2048);
}

#[test]
fn routes_single_worker() {
    assert_eq!(
        worker_routes(Mode::AsyncNormal),
        vec![Route { from: 0, to: 1 }, Route { from: 1, to: 0 }]
    );
}

#[test]
fn routes_concurrent_workers() {
    assert_eq!(
        worker_routes(Mode::SyncGsoConcurrent),
        vec![
            Route { from: 0, to: 1 },
            Route { from: 0, to: 1 },
            Route { from: 1, to: 0 },
            Route { from: 1, to: 0 },
        ]
    );
}

#[test]
fn runtime_choices() {
    assert_eq!(runtime_choice(None), RuntimeChoice::Default);
    assert_eq!(runtime_choice(Some(1)), RuntimeChoice::CurrentThread);
    assert_eq!(runtime_choice(Some(2)), RuntimeChoice::MultiThread(2));
    assert_eq!(runtime_choice(Some(16)), RuntimeChoice::MultiThread(16));
}
