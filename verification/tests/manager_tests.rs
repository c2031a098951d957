use taskman::manager::TaskManager;
use taskman::priority::{DisplayColor, Priority};

const NOW: i64 = 1_000_000;

#[test]
fn add_keeps_priority_order() {
    let mut m = TaskManager::new();
    m.add_task("A".to_string(), Priority::High, None);
    m.add_task("B".to_string(), Priority::Medium, None);
    m.add_task("C".to_string(), Priority::High, None);
    let lines = m.render_text(NOW);
    assert_eq!(lines, vec!["[ ] 0: A", "[ ] 1: C", "[ ] 2: B"]);
}

#[test]
fn add_sorts_across_all_priorities() {
    let mut m = TaskManager::new();
    m.add_task("low1".to_string(), Priority::Low, None);
    m.add_task("med1".to_string(), Priority::Medium, None);
    m.add_task("high1".to_string(), Priority::High, None);
    m.add_task("low2".to_string(), Priority::Low, None);
    m.add_task("high2".to_string(), Priority::High, None);
    m.add_task("med2".to_string(), Priority::Medium, None);
    let lines = m.render_text(NOW);
    assert_eq!(
        lines,
        vec![
            "[ ] 0: high1",
            "[ ] 1: high2",
            "[ ] 2: med1",
            "[ ] 3: med2",
            "[ ] 4: low1",
            "[ ] 5: low2",
        ]
    );
}

#[test]
fn complete_marks_only_that_task() {
    let mut m = TaskManager::new();
    m.add_task("first".to_string(), Priority::High, None);
    m.add_task("second".to_string(), Priority::High, None);
    m.complete_task(0);
    let lines = m.render_text(NOW);
    assert_eq!(lines, vec!["[x] 0: first", "[ ] 1: second"]);
    // marking the same task again changes nothing
    m.complete_task(0);
    let again = m.render_text(NOW);
    assert_eq!(again, vec!["[x] 0: first", "[ ] 1: second"]);
}

#[test]
fn complete_out_of_bounds_is_a_no_op() {
    let mut m = TaskManager::new();
    m.add_task("only".to_string(), Priority::Medium, None);
    m.complete_task(5);
    let lines = m.render_text(NOW);
    assert_eq!(lines, vec!["[ ] 0: only"]);
    assert_eq!(m.len(), 1);
}

#[test]
fn complete_on_empty_manager_is_a_no_op() {
    let mut m = TaskManager::new();
    m.complete_task(0);
    assert_eq!(m.len(), 0);
    assert_eq!(m.render_text(NOW), Vec::<String>::new());
}

#[test]
fn render_line_count_equals_task_count() {
    let mut m = TaskManager::new();
    assert_eq!(m.render_text(NOW).len(), 0);
    m.add_task("a".to_string(), Priority::Low, None);
    m.add_task("b".to_string(), Priority::Medium, Some(NOW + 10));
    m.add_task("c".to_string(), Priority::High, Some(NOW - 10));
    assert_eq!(m.render_text(NOW).len(), 3);
    assert_eq!(m.render(NOW).len(), 3);
    assert_eq!(m.len(), 3);
}

#[test]
fn due_two_hours_ahead_shows_due_in_2_hours() {
    let mut m = TaskManager::new();
    m.add_task("soon".to_string(), Priority::Medium, Some(NOW + 2 * 3600));
    let lines = m.render_text(NOW);
    assert_eq!(lines, vec!["[ ] 0: soon (Due in 2 hours)"]);
}

#[test]
fn due_hours_truncate_toward_zero() {
    // 1 h 59 min 59 s left still counts as 1 hour
    let mut m = TaskManager::new();
    m.add_task("soon".to_string(), Priority::Medium, Some(NOW + 2 * 3600 - 1));
    let lines = m.render_text(NOW);
    assert_eq!(lines, vec!["[ ] 0: soon (Due in 1 hours)"]);
    // less than an hour left counts as 0 hours
    let mut m2 = TaskManager::new();
    m2.add_task("very soon".to_string(), Priority::Medium, Some(NOW + 59 * 60));
    assert_eq!(m2.render_text(NOW), vec!["[ ] 0: very soon (Due in 0 hours)"]);
}

#[test]
fn due_in_past_shows_overdue() {
    let mut m = TaskManager::new();
    m.add_task("late".to_string(), Priority::High, Some(NOW - 10));
    let lines = m.render_text(NOW);
    assert_eq!(lines, vec!["[ ] 0: late (Overdue)"]);
}

#[test]
fn due_exactly_now_counts_as_overdue() {
    let mut m = TaskManager::new();
    m.add_task("edge".to_string(), Priority::Low, Some(NOW));
    let lines = m.render_text(NOW);
    assert_eq!(lines, vec!["[ ] 0: edge (Overdue)"]);
}

#[test]
fn no_due_time_means_no_suffix() {
    let mut m = TaskManager::new();
    m.add_task("water plants".to_string(), Priority::Low, None);
    let lines = m.render_text(NOW);
    assert_eq!(lines, vec!["[ ] 0: water plants"]);
}

#[test]
fn many_hours_render_in_full() {
    let mut m = TaskManager::new();
    m.add_task("far".to_string(), Priority::Low, Some(NOW + 123 * 3600 + 59));
    let lines = m.render_text(NOW);
    assert_eq!(lines, vec!["[ ] 0: far (Due in 123 hours)"]);
}

#[test]
fn indexes_past_nine_use_all_digits() {
    let mut m = TaskManager::new();
    for i in 0..12 {
        m.add_task(format!("t{}", i), Priority::Medium, None);
    }
    let lines = m.render_text(NOW);
    assert_eq!(lines[9], "[ ] 9: t9");
    assert_eq!(lines[10], "[ ] 10: t10");
    assert_eq!(lines[11], "[ ] 11: t11");
}

#[test]
fn empty_description_is_allowed() {
    let mut m = TaskManager::new();
    m.add_task(String::new(), Priority::High, None);
    assert_eq!(m.render_text(NOW), vec!["[ ] 0: "]);
}

#[test]
fn line_colors_follow_priority_and_due_status() {
    let mut m = TaskManager::new();
    m.add_task("urgent".to_string(), Priority::High, Some(NOW + 3600));
    m.add_task("normal".to_string(), Priority::Medium, Some(NOW - 1));
    m.add_task("idle".to_string(), Priority::Low, None);
    let lines = m.render(NOW);
    assert_eq!(lines[0].body_color, DisplayColor::Red);
    assert_eq!(lines[0].suffix_color, DisplayColor::Green);
    assert_eq!(lines[0].suffix, " (Due in 1 hours)");
    assert_eq!(lines[1].body_color, DisplayColor::Yellow);
    assert_eq!(lines[1].suffix_color, DisplayColor::Red);
    assert_eq!(lines[1].suffix, " (Overdue)");
    assert_eq!(lines[2].body_color, DisplayColor::Green);
    assert_eq!(lines[2].suffix, "");
    assert_eq!(lines[2].body, "[ ] 2: idle");
}

#[test]
fn render_line_text_joins_body_and_suffix() {
    let mut m = TaskManager::new();
    m.add_task("pay rent".to_string(), Priority::High, Some(NOW - 5));
    let lines = m.render(NOW);
    assert_eq!(lines[0].text(), "[ ] 0: pay rent (Overdue)");
}

#[test]
fn priority_colors_are_fixed() {
    assert_eq!(Priority::High.color(), DisplayColor::Red);
    assert_eq!(Priority::Medium.color(), DisplayColor::Yellow);
    assert_eq!(Priority::Low.color(), DisplayColor::Green);
}

#[test]
fn decimal_rendering_is_exact() {
    assert_eq!(taskman::digits::u64_to_string(0), "0");
    assert_eq!(taskman::digits::u64_to_string(7), "7");
    assert_eq!(taskman::digits::u64_to_string(10), "10");
    assert_eq!(taskman::digits::u64_to_string(90210), "90210");
    assert_eq!(
        taskman::digits::u64_to_string(u64::MAX),
        "18446744073709551615"
    );
}

#[test]
fn render_now_reads_the_real_clock() {
    let mut m = TaskManager::new();
    // no due time: the line does not depend on the clock
    m.add_task("steady".to_string(), Priority::Medium, None);
    // a due time in 1970 lies long in the past of any run of this test
    m.add_task("ancient".to_string(), Priority::High, Some(0));
    let lines = m.render_now();
    assert_eq!(lines.len(), 2);
    assert_eq!(lines[0].text(), "[ ] 0: ancient (Overdue)");
    assert_eq!(lines[1].text(), "[ ] 1: steady");
}
