use tcbee::backend::{
    receive_source_from_path, source_for_extension, try_receive_source_from_path, DataSource,
    IntermediateBackend,
};
use tcbee::db::{engine_for_extension, engine_for_path, format_flow, DataSource as Engine};
use tcbee::flow_filter::{flow_column_matches, flow_matches, FlowRow};
use tcbee::flow_wrapper::TcpFlowWrapper;
use tcbee::colors::{
    color_plan, distinct_color, generate_10_colors_scheme1, generate_12_colors_scheme2,
    generate_fixed_colors, generate_n_random_colors, retrieve_n_colors, ColorPlan, ColorScheme,
    PaletteScheme,
};
use tcbee::home::{HomeAction, HomeState, MessageHome};
use tcbee::plot_state::toggle_series_id;
use tcbee::paths::{path_extension, prepend_string};
use tcbee::process_tab::{
    ensure_input_bindings, preview_series_ids, preview_status, save_decision, save_status,
    InputBinding, SaveDecision,
};
use tcbee::processor::ValueKind;
use tcbee::ui_state::{
    flow_stats_from_counts, row_shade, switch_tab, type_display, FlowStats, FlowTable, RowShade,
    SeriesTable, Tab, TabHome, TabSettings,
};

fn cs(s: &str) -> Vec<char> {
    s.chars().collect()
}

#[test]
fn tabs_and_switching() {
    let all = Tab::all();
    let labels: Vec<&str> = all.iter().map(|t| t.label()).collect();
    assert_eq!(labels, vec!["Home", "Single Flow", "Multi Flow", "Process", "Settings"]);
    assert!(Tab::Single.resets_on_leave());
    assert!(Tab::Process.resets_on_leave());
    assert!(!Tab::Home.resets_on_leave());
    assert_eq!(switch_tab(Tab::Single, Tab::Home), (Tab::Home, true));
    assert_eq!(switch_tab(Tab::Home, Tab::Multi), (Tab::Multi, false));
    assert_eq!(switch_tab(Tab::Multi, Tab::Multi), (Tab::Multi, false));
}

#[test]
fn flow_table_selection_and_reset() {
    let mut t = FlowTable::new();
    assert!(t.filter.is_empty());
    assert_eq!(t.click_row(7), Some(7));
    assert_eq!(t.selected_id, Some(7));
    assert_eq!(t.click_row(7), None);
    assert_eq!(t.click_row(8), Some(8));
    t.filter = "port:80".to_string();
    t.stats_cache.insert(8, FlowStats { series_count: 3, point_count: 100 });
    t.clear_stats_cache();
    assert!(t.stats_cache.is_empty());
    assert_eq!(t.filter, "port:80");
    assert_eq!(t.selected_id, Some(8));
    t.reset();
    assert!(t.filter.is_empty());
    assert_eq!(t.selected_id, None);
}

#[test]
fn series_table_home_and_settings() {
    let mut s = SeriesTable::new();
    s.filter = "cwnd".to_string();
    s.reset();
    assert!(s.filter.is_empty());
    let mut h = TabHome::new();
    assert!(h.status.is_empty());
    h.set_status("Connected".to_string());
    assert_eq!(h.status, "Connected");
    let _settings = TabSettings::default();
}

#[test]
fn selection_add_and_remove() {
    let mut w = TcpFlowWrapper::new();
    assert!(!w.series_id_is_selected(&1));
    w.add_new_series(1);
    w.add_new_series(2);
    assert!(w.series_id_is_selected(&1));
    assert_eq!(w.selected_series, Some(vec![1, 2]));
    w.remove_series(&1);
    assert_eq!(w.selected_series, Some(vec![2]));
    assert!(!w.series_id_is_selected(&1));
    w.remove_series(&2);
    assert_eq!(w.selected_series, None);
    let d = TcpFlowWrapper::default();
    assert_eq!(d.flow_id, None);
}

#[test]
fn add_then_remove_restores_selection() {
    let mut w = TcpFlowWrapper::new();
    w.add_new_series(4);
    w.add_new_series(9);
    let before = w.selected_series.clone();
    w.add_new_series(5);
    w.remove_series(&5);
    assert_eq!(w.selected_series, before);
}

fn row() -> FlowRow {
    FlowRow {
        id: 12,
        src: "10.0.0.1".to_string(),
        dst: "FE80::1".to_string(),
        sport: 5001,
        dport: 443,
    }
}

#[test]
fn flow_filter_terms() {
    let f = row();
    assert!(flow_matches(&f, ""));
    assert!(flow_matches(&f, "10.0"));
    assert!(flow_matches(&f, "fe80"));
    assert!(flow_matches(&f, "port:443"));
    assert!(flow_matches(&f, "sport:50 dport:44"));
    assert!(!flow_matches(&f, "sport:50 dport:80"));
    assert!(flow_matches(&f, "id:12"));
    assert!(!flow_matches(&f, "id:13"));
    assert!(!flow_matches(&f, "color:red"));
    assert!(flow_matches(&f, "src:"));
    assert!(flow_column_matches(&f, &cs("dst"), &cs("fe80::1")));
    assert!(!flow_column_matches(&f, &cs("dst"), &cs("FE80")));
    assert!(flow_column_matches(&f, &cs("destination"), &cs("::1")));
    assert!(!flow_column_matches(&f, &cs("unknown"), &cs("1")));
}

#[test]
fn flow_names() {
    assert_eq!(format_flow(&row()), "ID:12 10.0.0.1:5001 → FE80::1:443");
}

#[test]
fn database_engines() {
    assert_eq!(engine_for_extension("sqlite").unwrap().to_string(), "SQLite");
    assert_eq!(engine_for_extension("duck").unwrap().to_string(), "DuckDB");
    assert_eq!(engine_for_extension("csv").err(), Some("Unknown extension: csv".to_string()));
    assert!(matches!(engine_for_path("/tmp/db.duck"), Ok(Engine::DuckDB)));
    assert!(matches!(engine_for_path("/tmp/db.sqlite"), Ok(Engine::Sqllite)));
    assert_eq!(engine_for_path("/tmp/db").err(), Some("Unknown extension: ".to_string()));
}

#[test]
fn plotting_sources() {
    let names: Vec<String> = DataSource::iterator().iter().map(|s| s.to_string()).collect();
    assert_eq!(names, vec!["Influx", "Sqllite", "Nothing selected"]);
    assert_eq!(source_for_extension("sqlite"), Some(DataSource::Sqllite));
    assert_eq!(source_for_extension("influx"), Some(DataSource::Influx));
    assert_eq!(source_for_extension("duck"), None);
    assert_eq!(receive_source_from_path("/data/run.sqlite"), Some(DataSource::Sqllite));
    assert_eq!(try_receive_source_from_path("/data/run.influx"), Some(Some(DataSource::Influx)));
    assert_eq!(try_receive_source_from_path("/data/run.txt"), Some(None));
    assert_eq!(try_receive_source_from_path("/data/run"), None);
}

#[test]
fn paths_join_and_extension() {
    assert_eq!(prepend_string("db.sqlite".to_string(), "/tmp"), "/tmp/db.sqlite");
    assert_eq!(prepend_string("x.tcp".to_string(), "/tmp/"), "/tmp/x.tcp");
    for (dir, file) in [
        ("/tmp", "a"),
        ("/tmp/", "a"),
        ("", "a"),
        ("rel/dir", "b.tcp"),
        ("/tmp", "/abs/file"),
        ("/tmp", ""),
        ("", ""),
        ("//", "x/y"),
    ] {
        let std_join = std::path::Path::new(dir).join(file).to_string_lossy().into_owned();
        assert_eq!(prepend_string(file.to_string(), dir), std_join, "{dir:?} {file:?}");
    }
    assert_eq!(path_extension("/tmp/db.sqlite"), Some("sqlite".to_string()));
    assert_eq!(path_extension("/tmp/archive.tar.gz"), Some("gz".to_string()));
    assert_eq!(path_extension("/tmp/.hidden"), None);
    assert_eq!(path_extension("/tmp/noext"), None);
}

#[test]
fn backend_series_lookup() {
    let b = IntermediateBackend::unconnected(DataSource::Sqllite);
    assert_eq!(b.source_type, DataSource::Sqllite);
    assert!(b.database_path.is_none());
    let series = vec![("snd_una".to_string(), 3), ("snd_wnd".to_string(), 4), ("cwnd".to_string(), 5)];
    let wanted = vec!["snd_wnd".to_string(), "snd_una".to_string()];
    assert_eq!(
        b.receive_series_id_from_string_and_flow_id(Some(&series), &wanted),
        Ok(Some(vec![3, 4]))
    );
    let missing = vec!["snd_una".to_string(), "rtt".to_string()];
    assert_eq!(
        b.receive_series_id_from_string_and_flow_id(Some(&series), &missing),
        Err("amount of received ids does not match requested amount, maybe database does not contain the time series?, values were [3]".to_string())
    );
    assert_eq!(
        b.receive_series_id_from_string_and_flow_id(None, &wanted),
        Err("No Flow found, aborting".to_string())
    );
}

#[test]
fn home_screen_messages() {
    let mut h = HomeState::new();
    assert_eq!(h.update(MessageHome::DataSourceSelected(DataSource::Influx)), HomeAction::Nothing);
    assert_eq!(h.datasource, Some(DataSource::Influx));
    assert_eq!(h.update(MessageHome::OutputPathSet("/tmp/out".to_string())), HomeAction::Nothing);
    assert_eq!(h.output_selected, Some("/tmp/out".to_string()));
    assert_eq!(h.update(MessageHome::ButtonDatabasePathPressed), HomeAction::PickDatabaseFile);
    assert_eq!(h.datasource, Some(DataSource::Influx));
    h.database_picked(None);
    assert_eq!(h.datasource, None);
    assert_eq!(h.output_selected, Some("/tmp/out".to_string()));
}

#[test]
fn colour_plans() {
    assert_eq!(color_plan(ColorScheme::Random, 5), ColorPlan { fixed: 0, random: 5, hsl: 0 });
    assert_eq!(color_plan(ColorScheme::RandomHSL, 5), ColorPlan { fixed: 0, random: 0, hsl: 5 });
    assert_eq!(color_plan(ColorScheme::LightTheme, 4), ColorPlan { fixed: 4, random: 0, hsl: 0 });
    assert_eq!(color_plan(ColorScheme::LightTheme, 13), ColorPlan { fixed: 10, random: 3, hsl: 0 });
    assert_eq!(color_plan(ColorScheme::DarkTheme, 12), ColorPlan { fixed: 12, random: 0, hsl: 0 });
    assert_eq!(color_plan(ColorScheme::DarkTheme, 20), ColorPlan { fixed: 12, random: 8, hsl: 0 });
}

fn binding(name: &str, id: Option<i64>) -> InputBinding {
    InputBinding { required_name: name.to_string(), selected_series_id: id }
}

fn ids(b: &[InputBinding]) -> Vec<Option<i64>> {
    b.iter().map(|x| x.selected_series_id).collect()
}

#[test]
fn input_bindings_rebuild_and_keep() {
    let available = vec![("SND_UNA".to_string(), 1), ("snd_wnd".to_string(), 2)];
    let required = vec!["snd_una".to_string(), "snd_wnd".to_string()];
    let mut b: Vec<InputBinding> = Vec::new();
    ensure_input_bindings(&mut b, &required, &available);
    assert_eq!(ids(&b), vec![Some(1), Some(2)]);
    // A user choice that still exists is kept.
    b[0].selected_series_id = Some(2);
    ensure_input_bindings(&mut b, &required, &available);
    assert_eq!(ids(&b), vec![Some(2), Some(2)]);
    // A choice whose series vanished is re-bound; an empty choice stays empty.
    let mut b = vec![binding("snd_una", Some(99)), binding("snd_wnd", None)];
    ensure_input_bindings(&mut b, &required, &available);
    assert_eq!(ids(&b), vec![Some(1), None]);
    // Changed names rebuild everything.
    let mut b = vec![binding("cwnd", Some(2))];
    ensure_input_bindings(&mut b, &required, &available);
    assert_eq!(b.len(), 2);
    assert_eq!(b[1].required_name, "snd_wnd");
    assert_eq!(ids(&b), vec![Some(1), Some(2)]);
}

#[test]
fn input_bindings_twice_is_once() {
    let available = vec![("a".to_string(), 1), ("B".to_string(), 2)];
    let required = vec!["b".to_string(), "c".to_string()];
    let mut b = vec![binding("x", Some(5))];
    ensure_input_bindings(&mut b, &required, &available);
    let first = ids(&b);
    ensure_input_bindings(&mut b, &required, &available);
    assert_eq!(ids(&b), first);
    assert_eq!(first, vec![Some(2), None]);
}

#[test]
fn save_decisions() {
    assert!(matches!(save_decision(Ok(vec![])), SaveDecision::Save));
    match save_decision(Ok(vec!["X".to_string()])) {
        SaveDecision::Confirm(v) => assert_eq!(v, vec!["X".to_string()]),
        _ => panic!("expected a confirmation"),
    }
    match save_decision(Err("db locked".to_string())) {
        SaveDecision::Report(m) => assert_eq!(m, "Error: db locked"),
        _ => panic!("expected a report"),
    }
}

#[test]
fn save_status_lines() {
    assert_eq!(save_status(&[Ok(()), Ok(())]), ("Saved 2 series to database.".to_string(), true));
    assert_eq!(save_status(&[]), ("Saved 0 series to database.".to_string(), true));
    assert_eq!(
        save_status(&[Ok(()), Err("a".to_string()), Err("b".to_string())]),
        ("Saved 1, errors: a; b".to_string(), false)
    );
}

fn random_ok(c: &(u8, u8, u8)) -> bool {
    (30..255).contains(&c.0) && (20..255).contains(&c.1) && (30..255).contains(&c.2)
}

#[test]
fn palettes_and_random_colours() {
    assert_eq!(generate_10_colors_scheme1().len(), 10);
    assert_eq!(generate_10_colors_scheme1()[0], (215, 25, 28));
    assert_eq!(generate_12_colors_scheme2().len(), 12);
    assert_eq!(generate_12_colors_scheme2()[11], (177, 89, 40));
    assert_eq!(generate_fixed_colors().len(), 44);
    assert_eq!(generate_fixed_colors()[1], (0, 4, 255));
    let r = generate_n_random_colors(50);
    assert_eq!(r.len(), 50);
    assert!(r.iter().all(random_ok));
    assert_eq!(distinct_color(0), Some((31, 119, 180)));
    assert_eq!(distinct_color(19), Some((173, 73, 74)));
    assert_eq!(distinct_color(20), None);
}

#[test]
fn scheme_colours() {
    assert_eq!(ColorScheme::RandomHSL.palette_scheme(), None);
    assert_eq!(ColorScheme::LightTheme.palette_scheme(), Some(PaletteScheme::LightTheme));
    assert_eq!(ColorScheme::DarkTheme.palette_scheme(), Some(PaletteScheme::DarkTheme));
    assert_eq!(ColorScheme::Random.palette_scheme(), Some(PaletteScheme::Random));
    let light = retrieve_n_colors(PaletteScheme::LightTheme, 4);
    assert_eq!(light, generate_10_colors_scheme1()[..4].to_vec());
    assert_eq!(retrieve_n_colors(PaletteScheme::LightTheme, 3).len(), 3);
    assert_eq!(retrieve_n_colors(PaletteScheme::DarkTheme, 5).len(), 5);
    assert!(retrieve_n_colors(PaletteScheme::DarkTheme, 0).is_empty());
    let light = retrieve_n_colors(PaletteScheme::LightTheme, 13);
    assert_eq!(light.len(), 13);
    assert_eq!(light[..10], generate_10_colors_scheme1()[..]);
    assert!(light[10..].iter().all(random_ok));
    let dark = retrieve_n_colors(PaletteScheme::DarkTheme, 12);
    assert_eq!(dark, generate_12_colors_scheme2());
    let random = retrieve_n_colors(PaletteScheme::Random, 7);
    assert_eq!(random.len(), 7);
    assert!(random.iter().all(random_ok));
}

#[test]
fn toggling_series() {
    let mut sel = vec![3, 5, 3];
    assert!(!toggle_series_id(&mut sel, 3));
    assert_eq!(sel, vec![5, 3]);
    assert!(toggle_series_id(&mut sel, 9));
    assert_eq!(sel, vec![5, 3, 9]);
    let before = vec![1, 2];
    let mut s = before.clone();
    assert!(toggle_series_id(&mut s, 7));
    assert!(!toggle_series_id(&mut s, 7));
    assert_eq!(s, before);
}

#[test]
fn table_rows_shown() {
    let mut t = FlowTable::new();
    let flows = vec![
        row(),
        FlowRow { id: 13, src: "10.0.0.2".to_string(), dst: "10.0.0.9".to_string(), sport: 80, dport: 5001 },
    ];
    assert_eq!(t.visible(&flows), vec![0, 1]);
    t.filter = "PORT:80".to_string();
    assert_eq!(t.visible(&flows), vec![1]);
    t.filter = "FE80".to_string();
    assert_eq!(t.visible(&flows), vec![0]);
    t.filter = "nothing".to_string();
    assert!(t.visible(&flows).is_empty());

    let mut s = SeriesTable::new();
    let names = vec!["SND_UNA".to_string(), "snd_wnd".to_string(), "cwnd".to_string()];
    assert_eq!(s.visible(&names), vec![0, 1, 2]);
    s.filter = "Snd".to_string();
    assert_eq!(s.visible(&names), vec![0, 1]);
    s.filter = "WND".to_string();
    assert_eq!(s.visible(&names), vec![1, 2]);
}

#[test]
fn flow_statistics_cache() {
    let stats = flow_stats_from_counts(&[10, 20, 12]);
    assert_eq!((stats.series_count, stats.point_count), (3, 42));
    let none = flow_stats_from_counts(&[]);
    assert_eq!((none.series_count, none.point_count), (0, 0));
    let mut t = FlowTable::new();
    assert!(t.cached_stats(4).is_none());
    t.remember_stats(4, stats);
    assert_eq!(t.cached_stats(4).map(|s| s.point_count), Some(42));
    t.clear_stats_cache();
    assert!(t.cached_stats(4).is_none());
}

#[test]
fn row_shading_and_type_column() {
    assert_eq!(row_shade(true, true, 0), RowShade::SelectedHover);
    assert_eq!(row_shade(false, true, 1), RowShade::Hover);
    assert_eq!(row_shade(true, false, 1), RowShade::Selected);
    assert_eq!(row_shade(false, false, 2), RowShade::Even);
    assert_eq!(row_shade(false, false, 3), RowShade::Odd);
    assert_eq!(type_display(ValueKind::Float, false), ("f64", (60, 140, 255)));
    assert_eq!(type_display(ValueKind::Float, true), ("f64", (60, 140, 220)));
    assert_eq!(type_display(ValueKind::Int, true), ("i64", (180, 100, 20)));
    assert_eq!(type_display(ValueKind::Boolean, false), ("bool", (140, 60, 160)));
    assert_eq!(type_display(ValueKind::Text, false), ("str", (60, 120, 60)));
}

#[test]
fn preview_inputs_checked() {
    let available = vec![("snd_una".to_string(), 1), ("snd_wnd".to_string(), 2)];
    let ok = vec![binding("SND_UNA", Some(1)), binding("SND_WND", Some(2))];
    assert_eq!(preview_series_ids(&ok, &available), Ok(vec![1, 2]));
    assert_eq!(preview_series_ids(&[], &available), Ok(vec![]));
    let unbound = vec![binding("SND_UNA", Some(1)), binding("SND_WND", None)];
    assert_eq!(
        preview_series_ids(&unbound, &available),
        Err("Error: no series selected for SND_WND".to_string())
    );
    let gone = vec![binding("SND_UNA", Some(7)), binding("SND_WND", None)];
    assert_eq!(
        preview_series_ids(&gone, &available),
        Err("Error: selected series for SND_UNA is not available in this flow".to_string())
    );
    assert_eq!(preview_status(Ok(3)), "OK — 3 new series computed.");
    assert_eq!(preview_status(Err("Missing SND_UNA series".to_string())), "Error: Missing SND_UNA series");
}

use tcbee::plot_state::PlotSelection;

#[test]
fn plot_selection_toggles_and_colours() {
    let mut p = PlotSelection::new();
    assert!(p.toggle_series(10, true));
    assert!(p.toggle_series(11, false));
    assert!(p.toggle_series(12, true));
    assert_eq!(p.selected_series_ids, vec![10, 11, 12]);
    assert_eq!(p.series, vec![(10, 0), (12, 1)]);
    let (ids, series) = (p.selected_series_ids.clone(), p.series.clone());
    assert!(p.toggle_series(13, true));
    assert!(!p.toggle_series(13, true));
    assert_eq!((p.selected_series_ids.clone(), p.series.clone()), (ids, series));
    assert!(!p.toggle_series(10, true));
    assert_eq!(p.selected_series_ids, vec![11, 12]);
    assert_eq!(p.series, vec![(12, 1)]);
}

#[test]
fn first_twenty_colours_differ() {
    let mut seen = Vec::new();
    for i in 0..20 {
        let c = distinct_color(i).unwrap();
        assert!(!seen.contains(&c));
        seen.push(c);
    }
}

use tcbee::multi_flow::{
    MultiFlowAction, MultiFlowMessage, MultiFlowState, SingleFlowAction, SingleFlowMessage,
    SingleFlowState,
};

#[test]
fn comparison_screen_drawing() {
    let mut s = MultiFlowState::new();
    assert_eq!(s.update(MultiFlowMessage::FlowOneSelected(1), false), MultiFlowAction::ResetZoom);
    assert_eq!(s.update(MultiFlowMessage::FlowTwoSelected(2), false), MultiFlowAction::ResetZoom);
    assert_eq!(s.update(MultiFlowMessage::GraphGenerationRequested, true), MultiFlowAction::Nothing);
    assert!(!s.render_chart);
    assert_eq!(
        s.update(MultiFlowMessage::FlowOneFeatureSelected(10), true),
        MultiFlowAction::RefetchAndResetZoom
    );
    s.update(MultiFlowMessage::FlowTwoFeatureSelected(20), true);
    s.update(MultiFlowMessage::GraphGenerationRequested, false);
    assert!(!s.render_chart);
    s.update(MultiFlowMessage::GraphGenerationRequested, true);
    assert!(s.render_chart);
    s.update(MultiFlowMessage::SplitChartRequested(true), true);
    assert!(s.split_chart && s.render_chart);
    assert_eq!(s.update(MultiFlowMessage::DrawLineSeriesRequested(true), true), MultiFlowAction::Redraw);
    s.update(MultiFlowMessage::FlowTwoFeatureDeselected(20), true);
    assert!(!s.render_chart);
    assert_eq!(s.second.selected_series, None);
    s.update(MultiFlowMessage::FlowTwoFeatureSelected(21), true);
    s.update(MultiFlowMessage::GraphGenerationRequested, true);
    assert!(s.render_chart);
    s.update(MultiFlowMessage::GraphGenerationRequested, true);
    assert!(!s.render_chart);
    s.update(MultiFlowMessage::GraphGenerationRequested, true);
    s.update(MultiFlowMessage::FlowOneSelected(3), true);
    assert!(!s.render_chart);
    assert_eq!(s.first.flow_id, Some(3));
}

#[test]
fn comparison_screen_unselect_all() {
    let mut s = MultiFlowState::new();
    s.update(MultiFlowMessage::FlowOneFeatureSelected(1), true);
    s.update(MultiFlowMessage::FlowTwoFeatureSelected(2), true);
    s.update(MultiFlowMessage::GraphGenerationRequested, true);
    assert!(s.render_chart);
    assert_eq!(s.update(MultiFlowMessage::UnselectAllSeries, true), MultiFlowAction::Nothing);
    assert_eq!(s.first.selected_series, None);
    assert_eq!(s.second.selected_series, None);
    assert!(s.render_chart);
    s.update(MultiFlowMessage::GraphGenerationRequested, true);
    assert!(!s.render_chart);
}

#[test]
fn single_flow_screen() {
    let mut s = SingleFlowState::new();
    assert_eq!(s.update(SingleFlowMessage::GraphGenerationRequested), SingleFlowAction::Nothing);
    assert!(!s.render_chart);
    assert_eq!(
        s.update(SingleFlowMessage::FlowFeatureSelected(4)),
        SingleFlowAction::ResetZoomAndRefetch
    );
    s.update(SingleFlowMessage::GraphGenerationRequested);
    assert!(s.render_chart);
    s.update(SingleFlowMessage::CheckBoxMultiplePlots(true));
    assert!(s.split_chart && s.render_chart);
    assert_eq!(s.update(SingleFlowMessage::FlowSelected(9)), SingleFlowAction::ResetZoom);
    assert!(!s.render_chart);
    assert_eq!(s.flow.flow_id, Some(9));
    assert_eq!(s.flow.selected_series, None);
    s.update(SingleFlowMessage::FlowFeatureSelected(5));
    s.update(SingleFlowMessage::FlowFeatureSelected(6));
    s.update(SingleFlowMessage::GraphGenerationRequested);
    s.update(SingleFlowMessage::FlowFeatureDeselected(5));
    assert!(s.render_chart);
    s.update(SingleFlowMessage::FlowFeatureDeselected(6));
    assert!(!s.render_chart);
    s.update(SingleFlowMessage::FlowFeatureSelected(7));
    s.update(SingleFlowMessage::UnselectAllSeries);
    assert_eq!(s.flow.selected_series, None);
}
