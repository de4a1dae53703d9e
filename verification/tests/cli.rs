use swmon::cli::render_table;
use swmon::display::{MonitorInfo, TableDisplayInfo};

fn rows() -> Vec<TableDisplayInfo> {
    vec![
        TableDisplayInfo::new(
            0,
            MonitorInfo {
                backend: "i2c-dev".to_string(),
                id: "/dev/i2c-4".to_string(),
                manufacturer_id: Some("DEL".to_string()),
                model_id: None,
                model_name: Some("DELL U2720Q".to_string()),
            },
        ),
        TableDisplayInfo::new(12, MonitorInfo::new("winapi".to_string(), "7".to_string())),
    ]
}

fn words(line: &str) -> Vec<&str> {
    line.split_whitespace().collect()
}

#[test]
fn table_has_headings_and_one_line_for_each_monitor() {
    let text = render_table(&rows());
    let lines: Vec<&str> = text.lines().collect();
    assert_eq!(lines.len(), 3);
    assert_eq!(
        words(lines[0]),
        vec!["No.", "Backend", "Display", "ID", "Manufacturer", "ID", "Model", "Name"]
    );
    assert_eq!(words(lines[1]), vec!["0", "i2c-dev", "/dev/i2c-4", "DEL", "DELL", "U2720Q"]);
    assert_eq!(words(lines[2]), vec!["12", "winapi", "7", "unknown", "unknown"]);
}

#[test]
fn table_columns_are_aligned() {
    let text = render_table(&rows());
    let lines: Vec<&str> = text.lines().collect();
    for heading in ["Backend", "Display ID", "Manufacturer ID", "Model Name"] {
        let column = lines[0].find(heading).unwrap();
        for line in &lines[1..] {
            assert_eq!(&line[column - 1..column], " ");
            assert_ne!(&line[column..column + 1], " ");
        }
    }
    assert_eq!(lines[0].len(), lines[1].len());
    assert_eq!(lines[1].len(), lines[2].len());
}

#[test]
fn table_without_monitors_has_the_headings_only() {
    let text = render_table(&Vec::new());
    let lines: Vec<&str> = text.lines().collect();
    assert_eq!(lines.len(), 1);
    assert_eq!(
        words(lines[0]),
        vec!["No.", "Backend", "Display", "ID", "Manufacturer", "ID", "Model", "Name"]
    );
}

#[test]
fn table_in_blank_style_has_no_frame() {
    let text = render_table(&rows());
    assert_eq!(
        text,
        " No.   Backend   Display ID   Manufacturer ID   Model Name  \n \
         0     i2c-dev   /dev/i2c-4   DEL               DELL U2720Q \n \
         12    winapi    7            unknown           unknown     "
    );
}
