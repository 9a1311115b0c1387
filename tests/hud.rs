use space_shooter::hud::{
    bar, equipment_key, equipment_line, fit_lines, level_line, speed_line, status_line,
    time_line, UINode,
};
use space_shooter::text::{decimal, pad_left, pad_right, repeated};

#[test]
fn bar_half_full() {
    assert_eq!(bar(5, 10, 10), "|||||.....");
}

#[test]
fn bar_rounds_down() {
    assert_eq!(bar(1, 3, 10), "|||.......");
    assert_eq!(bar(2, 3, 10), "||||||....");
}

#[test]
fn bar_empty_and_full() {
    assert_eq!(bar(0, 10, 10), "..........");
    assert_eq!(bar(10, 10, 10), "||||||||||");
}

#[test]
fn bar_caps_at_max() {
    assert_eq!(bar(15, 10, 10), "||||||||||");
}

#[test]
fn bar_without_max_is_blank() {
    assert_eq!(bar(0, 0, 4), "    ");
    assert_eq!(bar(7, 0, 10), "          ");
}

#[test]
fn bar_of_zero_width() {
    assert_eq!(bar(3, 10, 0), "");
}

#[test]
fn bar_with_huge_values_does_not_overflow() {
    assert_eq!(bar(usize::MAX, usize::MAX, 10), "||||||||||");
    assert_eq!(bar(usize::MAX / 2, usize::MAX, 10), "||||......");
}

#[test]
fn status_line_layout() {
    assert_eq!(status_line("Armor", 40, 100, 40), "Armor    ||||...... 40");
    assert_eq!(
        status_line("Shield", 3, 7, 3),
        format!("{:<8} {} {}", "Shield", "||||......", 3)
    );
}

#[test]
fn status_line_long_label_is_not_cut() {
    assert_eq!(
        status_line("Schutzschild", 0, 0, 0),
        "Schutzschild            0"
    );
}

#[test]
fn level_line_layout() {
    assert_eq!(level_line("Level", 3, 10, 7), "Level    |||....... 07");
    assert_eq!(level_line("Level", 10, 10, 123), "Level    |||||||||| 123");
}

#[test]
fn speed_line_layout() {
    assert_eq!(speed_line("Speed", "12"), "Speed    12 m/s");
}

#[test]
fn time_line_layout() {
    assert_eq!(time_line("Time", 754), "Time     12:34");
    assert_eq!(time_line("Time", 0), "Time     00:00");
    assert_eq!(time_line("Time", 3725), "Time     62:05");
    assert_eq!(
        time_line("Time", 6005),
        format!("{:<8} {:0>2}:{:0>2}", "Time", 6005 / 60, 6005 % 60)
    );
}

#[test]
fn equipment_line_layout() {
    assert_eq!(
        equipment_line(7, "Blaster"),
        format!("{} {:>16}", "|||||||...", "Blaster")
    );
    assert_eq!(equipment_line(0, "Blaster"), "..........          Blaster");
}

#[test]
fn equipment_key_right_aligns() {
    assert_eq!(equipment_key("Blaster"), "         Blaster");
    assert_eq!(equipment_key("AVeryLongWeaponClassName"), "AVeryLongWeaponClassName");
}

#[test]
fn fit_lines_pads_with_blank_lines() {
    let lines = vec![String::from("a"), String::from("b")];
    let r = fit_lines(lines, 4);
    assert_eq!(r, vec!["a", "b", "", ""]);
}

#[test]
fn fit_lines_cuts_extra_lines() {
    let lines: Vec<String> = (0..12).map(|i| format!("{}", i)).collect();
    let r = fit_lines(lines, 10);
    assert_eq!(r.len(), 10);
    assert_eq!(r[9], "9");
}

#[test]
fn panel_sizes() {
    assert_eq!(UINode::Status.slots(), 5);
    assert_eq!(UINode::Equipment.slots(), 10);
    assert_eq!(UINode::Upgrades.slots(), 10);
}

#[test]
fn decimal_numbers() {
    assert_eq!(decimal(0), "0");
    assert_eq!(decimal(7), "7");
    assert_eq!(decimal(1234567890), "1234567890");
    assert_eq!(decimal(u64::MAX), u64::MAX.to_string());
}

#[test]
fn padding_counts_characters() {
    assert_eq!(pad_right("é", 3), "é  ");
    assert_eq!(pad_left("é", '0', 3), "00é");
    assert_eq!(pad_left("7", '0', 2), format!("{:0>2}", 7));
    assert_eq!(pad_right("abcdef", 2), "abcdef");
}

#[test]
fn repeated_characters() {
    assert_eq!(repeated('x', 3), "xxx");
    assert_eq!(repeated('x', 0), "");
}
