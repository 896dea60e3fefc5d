use tcbee::moving_average::MovingAverage;
use tcbee::plugins::{
    BytesInFlightPlugin, DummyPlugin, DuplicateAckPlugin, LossEpisodePlugin, PluginKind,
    RetransmissionPlugin, SenderLimitationPlugin, UpperWindowPlugin, UsableSendWindowPlugin,
};
use tcbee::processor::{ProcessorImplementation, UpperWindow, UpperWindowInputError, ValueKind};
use tcbee::sampling::{compute_skip_step, downsample, MAX_RENDER_POINTS};

#[test]
fn plugin_catalogue() {
    let labels: Vec<&str> = PluginKind::all().iter().map(|k| k.label()).collect();
    assert_eq!(
        labels,
        vec![
            "Dummy Plugin",
            "Upper TCP Window",
            "Bytes In Flight",
            "Usable Send Window",
            "Duplicate ACK Detector",
            "Retransmission Detector",
            "Sender Limitation",
            "Loss Episode Detector",
        ]
    );
}

#[test]
fn plugin_requirements_and_input_checks() {
    let d = DummyPlugin::new();
    assert_eq!(d.name(), "Dummy Plugin");
    assert!(d.description().starts_with("Generates a random"));
    assert_eq!(d.required_series(), vec!["ack_num", "seq_num"]);
    assert_eq!(d.check_inputs(0), Err("No input series provided".to_string()));
    assert_eq!(d.check_inputs(1), Ok(()));
    assert_eq!(DummyPlugin::default().required, d.required);

    let u = UpperWindowPlugin::new();
    assert_eq!(u.name(), "Upper TCP Window");
    assert_eq!(u.required_series(), vec!["SND_UNA", "SND_WND"]);
    assert_eq!(u.check_inputs(0), Err("Missing SND_UNA series".to_string()));
    assert_eq!(u.check_inputs(1), Err("Missing SND_WND series".to_string()));
    assert_eq!(u.check_inputs(2), Ok(()));
    assert_eq!(UpperWindowPlugin::default().required, u.required);

    let b = BytesInFlightPlugin;
    assert_eq!(b.name(), "Bytes In Flight");
    assert_eq!(b.required_series(), vec!["SND_NXT", "SND_UNA"]);
    assert_eq!(b.check_inputs(1), Err("Missing SND_UNA series".to_string()));
    assert_eq!(b.check_inputs(2), Ok(()));

    let w = UsableSendWindowPlugin;
    assert_eq!(w.required_series(), vec!["SND_UNA", "SND_WND", "SND_NXT"]);
    assert_eq!(w.check_inputs(2), Err("Missing SND_NXT series".to_string()));
    assert_eq!(w.check_inputs(3), Ok(()));

    let a = DuplicateAckPlugin;
    assert_eq!(a.required_series(), vec!["ACK_NUM", "SEQ_NUM", "FLAGS"]);
    assert_eq!(a.check_inputs(0), Err("Missing ACK_NUM series".to_string()));
    assert_eq!(a.check_inputs(1), Err("Missing SEQ_NUM series".to_string()));
    assert_eq!(a.check_inputs(2), Err("Missing FLAGS series".to_string()));
    assert_eq!(a.check_inputs(4), Ok(()));

    let r = RetransmissionPlugin;
    assert_eq!(r.required_series(), vec!["SEQ_NUM"]);
    assert_eq!(r.check_inputs(0), Err("Missing SEQ_NUM/SND_NXT series".to_string()));

    let s = SenderLimitationPlugin;
    assert_eq!(s.name(), "Sender Limitation");
    assert_eq!(s.required_series(), vec!["SND_NXT", "SND_UNA", "SND_WND", "SND_CWND", "advmss"]);
    assert_eq!(s.check_inputs(3), Err("Missing SND_CWND series".to_string()));
    assert_eq!(s.check_inputs(4), Err("Missing advmss series".to_string()));
    assert_eq!(s.check_inputs(5), Ok(()));

    let l = LossEpisodePlugin;
    assert_eq!(l.required_series(), vec!["total_retrans"]);
    assert_eq!(l.check_inputs(0), Err("Missing total_retrans series".to_string()));
    assert_eq!(l.check_inputs(1), Ok(()));
}

#[test]
fn value_kinds_and_processors() {
    assert_eq!(ValueKind::Int.type_to_int(), 0);
    assert_eq!(ValueKind::Float.type_to_int(), 1);
    assert_eq!(ValueKind::Boolean.type_to_int(), 2);
    assert_eq!(ValueKind::Text.type_to_int(), 3);
    let names: Vec<String> = ProcessorImplementation::all().iter().map(|p| p.to_string()).collect();
    assert_eq!(names, vec!["Dummy Processor", "Upper TCP Window Number"]);
}

#[test]
fn upper_window_processor_inputs() {
    let p = UpperWindow::new();
    assert_eq!(p.receive_name(), "Upper TCP Window Number");
    assert_eq!(p.receive_required_timeseries(), vec!["SND_UNA", "SND_WND"]);
    assert!(!p.receive_description().is_empty());
    assert_eq!(UpperWindow::check_inputs(&[]), Err(UpperWindowInputError::MissingUna));
    assert_eq!(UpperWindow::check_inputs(&[ValueKind::Int]), Err(UpperWindowInputError::MissingWnd));
    assert_eq!(
        UpperWindow::check_inputs(&[ValueKind::Int, ValueKind::Float]),
        Err(UpperWindowInputError::Mismatch)
    );
    assert_eq!(
        UpperWindow::check_inputs(&[ValueKind::Text, ValueKind::Text]),
        Err(UpperWindowInputError::NotNumeric)
    );
    assert_eq!(UpperWindow::check_inputs(&[ValueKind::Float, ValueKind::Float]), Ok(ValueKind::Float));
    assert_eq!(UpperWindowInputError::MissingUna.message(), "No SND_UNA series!");
    assert_eq!(UpperWindowInputError::MissingWnd.message(), "No SND_WND series!");
    assert_eq!(UpperWindowInputError::Mismatch.message(), "Mismatch in TS types!");
    assert_eq!(
        UpperWindowInputError::NotNumeric.message(),
        "Series invalid type: Are not INT or FLOAT!"
    );
}

#[test]
fn upper_window_sums_with_extremes() {
    let (s, min, max) = UpperWindow::sum_int_series(&[100, 200, 50], &[10, -250, 5, 7]);
    assert_eq!(s, vec![110, -50, 55]);
    assert_eq!((min, max), (-50, 110));
    let (s, min, max) = UpperWindow::sum_int_series(&[], &[1]);
    assert!(s.is_empty());
    assert_eq!((min, max), (i64::MAX, i64::MIN));
}

#[test]
fn skip_step_keeps_render_budget() {
    assert_eq!(MAX_RENDER_POINTS, 2000);
    assert_eq!(compute_skip_step(100, 0), 1);
    assert_eq!(compute_skip_step(100, 3), 3);
    assert_eq!(compute_skip_step(2000, 1), 1);
    assert_eq!(compute_skip_step(10_000, 1), 5);
    assert_eq!(compute_skip_step(10_000, 9), 9);
    assert_eq!(compute_skip_step(3999, 0), 2);
    assert_eq!(compute_skip_step(2001, 1), 2);
    assert_eq!(compute_skip_step(10_001, 1), 6);
}

#[test]
fn downsample_every_nth() {
    let v: Vec<u32> = (0..10).collect();
    assert_eq!(downsample(v.clone(), 0), v);
    assert_eq!(downsample(v.clone(), 1), v);
    assert_eq!(downsample(v.clone(), 3), vec![0, 3, 6, 9]);
    assert_eq!(downsample(v.clone(), 5), vec![0, 5]);
    assert_eq!(downsample(v.clone(), 20), vec![0]);
    assert_eq!(downsample(Vec::<u32>::new(), 4), Vec::<u32>::new());
}

#[test]
fn thinned_series_stay_bounded() {
    for n in [0usize, 1, 1999, 2000, 2001, 3999, 4000, 4001, 123_457] {
        let v: Vec<usize> = (0..n).collect();
        let step = compute_skip_step(n, 1);
        assert!(downsample(v, step).len() <= MAX_RENDER_POINTS, "{n}");
    }
}

#[test]
fn moving_average_window() {
    let mut m: MovingAverage<u64> = MovingAverage::new(3);
    assert!(m.is_empty());
    assert_eq!(m.capacity(), 3);
    for i in 1..=5u64 {
        m.add_value(i * 10, i);
    }
    assert_eq!(m.len(), 3);
    let values: Vec<u64> = m.values().iter().map(|t| t.value).collect();
    assert_eq!(values, vec![30, 40, 50]);
    let durations: Vec<u64> = m.values().iter().map(|t| t.duration).collect();
    assert_eq!(durations, vec![3, 4, 5]);
    m.clear();
    assert!(m.is_empty());
    assert_eq!(m.capacity(), 3);
    let mut z: MovingAverage<u64> = MovingAverage::new(0);
    z.add_value(1, 1);
    assert_eq!(z.len(), 0);
}

use tcbee::plot_values::{
    extract_non_empty_string, filter_false_boolean_from_data, filter_for_string_values, Sample,
};

#[test]
fn text_and_boolean_samples() {
    let data = vec![
        (1u64, Sample::Text("SYN".to_string())),
        (2, Sample::Int(4)),
        (3, Sample::Boolean(true)),
        (4, Sample::Text("FIN".to_string())),
        (5, Sample::Boolean(false)),
        (6, Sample::Float),
        (7, Sample::Boolean(true)),
    ];
    assert_eq!(
        extract_non_empty_string(&data),
        vec![(1, "SYN".to_string()), (4, "FIN".to_string())]
    );
    let events: Vec<u64> = filter_false_boolean_from_data(&data).iter().map(|(t, _)| *t).collect();
    assert_eq!(events, vec![3, 7]);
    assert!(filter_false_boolean_from_data(&data)
        .iter()
        .all(|(_, v)| matches!(v, Sample::Boolean(true))));
    assert_eq!(
        filter_for_string_values(&[ValueKind::Int, ValueKind::Text, ValueKind::Text]),
        Some(vec![1, 2])
    );
    assert_eq!(filter_for_string_values(&[ValueKind::Float]), None);
    assert_eq!(filter_for_string_values(&[]), None);
}

use tcbee::plugins::NEW_SERIES_ID;

#[test]
fn upper_window_plugin_input_kinds() {
    let u = UpperWindowPlugin::new();
    assert_eq!(u.check_input_kinds(&[]), Err("Missing SND_UNA series".to_string()));
    assert_eq!(u.check_input_kinds(&[ValueKind::Int]), Err("Missing SND_WND series".to_string()));
    assert_eq!(
        u.check_input_kinds(&[ValueKind::Int, ValueKind::Float]),
        Err("SND_UNA and SND_WND have mismatched types".to_string())
    );
    assert_eq!(
        u.check_input_kinds(&[ValueKind::Boolean, ValueKind::Boolean]),
        Err("SND_UNA/SND_WND must be Int or Float".to_string())
    );
    assert_eq!(
        u.check_input_kinds(&[ValueKind::Text, ValueKind::Text]),
        Err("SND_UNA/SND_WND must be Int or Float".to_string())
    );
    assert_eq!(u.check_input_kinds(&[ValueKind::Float, ValueKind::Float]), Ok(ValueKind::Float));
    assert_eq!(u.check_input_kinds(&[ValueKind::Int, ValueKind::Int, ValueKind::Text]), Ok(ValueKind::Int));
}

#[test]
fn plugin_instances_match_their_kinds() {
    let mut labels = Vec::new();
    for kind in PluginKind::all() {
        let p = kind.create();
        assert_eq!(p.name(), kind.label());
        labels.push(kind.label());
        assert!(!p.required_series().is_empty());
    }
    let mut unique = labels.clone();
    unique.sort();
    unique.dedup();
    assert_eq!(unique.len(), labels.len());
    assert_eq!(
        PluginKind::SenderLimitation.create().required_series(),
        vec!["SND_NXT", "SND_UNA", "SND_WND", "SND_CWND", "advmss"]
    );
    assert_eq!(
        PluginKind::UsableSendWindow.outputs(ValueKind::Int),
        vec![("USABLE_SND_WND", ValueKind::Int, (220, 160, 80))]
    );
    assert_eq!(
        PluginKind::UpperWindow.outputs(ValueKind::Float),
        vec![("UPPER_WND", ValueKind::Float, (80, 180, 80))]
    );
    let names: Vec<&str> =
        PluginKind::SenderLimitation.outputs(ValueKind::Int).iter().map(|o| o.0).collect();
    assert_eq!(names, vec!["CWND_UTILIZATION", "SENDER_LIMITATION", "SENDER_LIMITATION_LABEL"]);
    assert_eq!(PluginKind::DuplicateAck.outputs(ValueKind::Int)[0].1, ValueKind::Boolean);
    assert_eq!(NEW_SERIES_ID, -1);
}
