use sysdash::layout::{five_bands, Rect};
use sysdash::panels::{
    dashboard_panels, memory_panel, program_status_body, program_status_panel, queue_panel,
    updates_panel, uptime_panel, watched_programs, PanelColor,
};
use sysdash::text::{fmt_i64, fmt_u64};
use sysdash::ticker::{advance_tick, next_state, wait_budget, LoopEvent, LoopState, TICK_MS};
use sysdash::updates::updates_count_of;
use sysdash::uptime::split_uptime;

fn strings(names: &[&str]) -> Vec<String> {
    names.iter().map(|n| n.to_string()).collect()
}

#[test]
fn formats_unsigned_decimals() {
    assert_eq!(fmt_u64(0), "0");
    assert_eq!(fmt_u64(7), "7");
    assert_eq!(fmt_u64(90061), "90061");
    assert_eq!(fmt_u64(u64::MAX), "18446744073709551615");
}

#[test]
fn formats_signed_decimals() {
    assert_eq!(fmt_i64(0), "0");
    assert_eq!(fmt_i64(-1), "-1");
    assert_eq!(fmt_i64(i64::MIN), "-9223372036854775808");
    assert_eq!(fmt_i64(i64::MAX), "9223372036854775807");
}

#[test]
fn memory_panel_divides_native_units() {
    let p = memory_panel(4096 * 1024, 8192 * 1024);
    assert_eq!(p.title, "Memory Usage");
    assert_eq!(p.body, "Memory Usage: 4096/8192 MB");
    assert_eq!(p.color, PanelColor::Cyan);
}

#[test]
fn memory_panel_zero_and_uneven() {
    assert_eq!(memory_panel(0, 0).body, "Memory Usage: 0/0 MB");
    // 1023 native units round down to 0 MB.
    assert_eq!(memory_panel(1023, 2047).body, "Memory Usage: 0/1 MB");
}

#[test]
fn uptime_panel_decomposes_seconds() {
    let p = uptime_panel(90061);
    assert_eq!(p.title, "System Uptime");
    assert_eq!(p.body, "Uptime: 1d 1h 1m 1s");
    assert_eq!(p.color, PanelColor::Green);
}

#[test]
fn uptime_panel_edges() {
    assert_eq!(uptime_panel(0).body, "Uptime: 0d 0h 0m 0s");
    assert_eq!(uptime_panel(59).body, "Uptime: 0d 0h 0m 59s");
    assert_eq!(uptime_panel(86399).body, "Uptime: 0d 23h 59m 59s");
    assert_eq!(uptime_panel(86400).body, "Uptime: 1d 0h 0m 0s");
}

#[test]
fn uptime_parts_recompose() {
    for s in [0u64, 1, 59, 60, 3599, 3600, 86399, 86400, 90061, u64::MAX] {
        let p = split_uptime(s);
        assert!(p.hours < 24 && p.minutes < 60 && p.seconds < 60);
        assert_eq!(p.days * 86400 + p.hours * 3600 + p.minutes * 60 + p.seconds, s);
    }
}

#[test]
fn updates_count_subtracts_header_line() {
    assert_eq!(updates_count_of(&b"6\n".to_vec()), 5);
    assert_eq!(updates_count_of(&b"1\n".to_vec()), 0);
    assert_eq!(updates_count_of(&b"  42  \n".to_vec()), 41);
}

#[test]
fn updates_count_falls_back_to_zero() {
    assert_eq!(updates_count_of(&b"".to_vec()), 0);
    assert_eq!(updates_count_of(&b"   \n".to_vec()), 0);
    assert_eq!(updates_count_of(&b"oops\n".to_vec()), 0);
    assert_eq!(updates_count_of(&b"4 packages\n".to_vec()), 0);
    // Out of 32-bit range: unparsable, so the fallback count of 1 applies.
    assert_eq!(updates_count_of(&b"2147483648\n".to_vec()), 0);
    assert_eq!(updates_count_of(&b"99999999999999999999\n".to_vec()), 0);
}

#[test]
fn updates_count_parses_signs_and_range_ends() {
    assert_eq!(updates_count_of(&b"+7\n".to_vec()), 6);
    assert_eq!(updates_count_of(&b"-3\n".to_vec()), -4);
    assert_eq!(updates_count_of(&b"0\n".to_vec()), -1);
    assert_eq!(updates_count_of(&b"2147483647\n".to_vec()), 2147483646);
    assert_eq!(updates_count_of(&b"-2147483648\n".to_vec()), -2147483649);
    // A sign alone is not a number.
    assert_eq!(updates_count_of(&b"-\n".to_vec()), 0);
}

#[test]
fn updates_panel_renders_count() {
    let p = updates_panel(&b"6\n".to_vec());
    assert_eq!(p.title, "Apt Updates");
    assert_eq!(p.body, "Available Updates: 5");
    assert_eq!(p.color, PanelColor::Yellow);
    assert_eq!(updates_panel(&b"junk".to_vec()).body, "Available Updates: 0");
}

#[test]
fn status_body_one_line_per_name_in_order() {
    let watched = strings(&["nginx", "mysql"]);
    let table = strings(&["bash", "nginx", "sshd"]);
    let body = program_status_body(&watched, &table);
    assert_eq!(body, "nginx: Running\nmysql: Not Running\n");
}

#[test]
fn status_body_requires_exact_name_match() {
    let watched = strings(&["nginx"]);
    // Prefixes, extensions and case variants never match.
    let table = strings(&["nginx2", "ngin", "Nginx", "xnginx"]);
    assert_eq!(program_status_body(&watched, &table), "nginx: Not Running\n");
    let exact = strings(&["nginx"]);
    assert_eq!(program_status_body(&watched, &exact), "nginx: Running\n");
}

#[test]
fn status_body_empty_watch_list() {
    let body = program_status_body(&strings(&[]), &strings(&["bash"]));
    assert_eq!(body, "");
}

#[test]
fn status_panel_is_magenta() {
    let p = program_status_panel(&strings(&["a"]), &strings(&[]));
    assert_eq!(p.title, "Program Status");
    assert_eq!(p.color, PanelColor::Magenta);
}

#[test]
fn queue_panel_passes_output_through() {
    let p = queue_panel("Group \"SERVICES\"\nno tasks\n".to_string());
    assert_eq!(p.title, "Pueue SERVICES Group");
    assert_eq!(p.body, "Group \"SERVICES\"\nno tasks\n");
    assert_eq!(p.color, PanelColor::Blue);
}

#[test]
fn watched_list_is_fixed() {
    let w = watched_programs();
    assert_eq!(w, vec!["nginx".to_string(), "mysql".to_string()]);
}

#[test]
fn quit_key_stops_the_loop() {
    assert_eq!(next_state(LoopState::Running, LoopEvent::KeyChar('q')), LoopState::Stopped);
    assert_eq!(next_state(LoopState::Running, LoopEvent::KeyChar('x')), LoopState::Running);
    assert_eq!(next_state(LoopState::Running, LoopEvent::OtherEvent), LoopState::Running);
    assert_eq!(next_state(LoopState::Running, LoopEvent::NoEvent), LoopState::Running);
    assert_eq!(next_state(LoopState::Stopped, LoopEvent::NoEvent), LoopState::Stopped);
}

#[test]
fn wait_budget_is_bounded_by_tick() {
    assert_eq!(wait_budget(0), TICK_MS);
    assert_eq!(wait_budget(250), 750);
    assert_eq!(wait_budget(1000), 0);
    assert_eq!(wait_budget(5000), 0);
    for e in [0u64, 1, 999, 1000, 1001, u64::MAX] {
        assert!(wait_budget(e) <= TICK_MS);
    }
}

#[test]
fn tick_boundary_advances_only_after_full_interval() {
    assert_eq!(advance_tick(0, 999), 0);
    assert_eq!(advance_tick(0, 1000), 1000);
    assert_eq!(advance_tick(500, 1499), 500);
    assert_eq!(advance_tick(500, 1500), 1500);
}

#[test]
fn layout_splits_into_five_equal_bands() {
    let bands = five_bands(Rect { x: 0, y: 0, width: 80, height: 25 });
    assert_eq!(bands.len(), 5);
    for (i, b) in bands.iter().enumerate() {
        assert_eq!(b.x, 1);
        assert_eq!(b.width, 78);
        assert_eq!(b.height, 4);
        assert_eq!(b.y, 1 + 4 * i as u16);
    }
}

#[test]
fn layout_handles_tiny_areas() {
    let bands = five_bands(Rect { x: 3, y: 7, width: 1, height: 1 });
    assert_eq!(bands.len(), 5);
    for b in bands.iter() {
        assert_eq!(b.width, 0);
        assert_eq!(b.height, 0);
    }
}

#[test]
fn end_to_end_frame() {
    let watched = strings(&["nginx", "mysql"]);
    let table = strings(&["systemd", "nginx", "bash"]);
    let panels = dashboard_panels(
        4096 * 1024,
        8192 * 1024,
        90061,
        &watched,
        &table,
        &b"6\n".to_vec(),
        "queue says hi".to_string(),
    );
    assert_eq!(panels.len(), 5);
    assert_eq!(panels[0].body, "Memory Usage: 4096/8192 MB");
    assert_eq!(panels[1].body, "Uptime: 1d 1h 1m 1s");
    assert_eq!(panels[2].body, "Available Updates: 5");
    assert_eq!(panels[3].body, "nginx: Running\nmysql: Not Running\n");
    assert_eq!(panels[4].body, "queue says hi");
    assert_eq!(panels[0].color, PanelColor::Cyan);
    assert_eq!(panels[1].color, PanelColor::Green);
    assert_eq!(panels[2].color, PanelColor::Yellow);
    assert_eq!(panels[3].color, PanelColor::Magenta);
    assert_eq!(panels[4].color, PanelColor::Blue);
}
