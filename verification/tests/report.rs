use btc_sampler::{read_report, render_summary, ReadReport, CACHE_FILE};

fn texts(items: &[&str]) -> Vec<String> {
    items.iter().map(|item| item.to_string()).collect()
}

#[test]
fn file_has_the_mean_and_then_the_points() {
    assert_eq!(
        render_summary("10000", &texts(&["10000.0", "10002.0", "9998.0"])),
        "Average Price: 10000\nData Points: [10000.0, 10002.0, 9998.0]"
    );
}

#[test]
fn file_without_points_has_an_empty_list() {
    assert_eq!(render_summary("NaN", &texts(&[])), "Average Price: NaN\nData Points: []");
}

#[test]
fn file_with_one_point_has_no_separator() {
    assert_eq!(render_summary("7.5", &texts(&["7.5"])), "Average Price: 7.5\nData Points: [7.5]");
}

#[test]
fn file_has_two_lines_and_no_line_end() {
    let text = render_summary("1.5", &texts(&["1.0", "2.0"]));
    assert_eq!(text.lines().count(), 2);
    assert!(!text.ends_with('\n'));
    assert_eq!(text.matches(", ").count(), 1);
}

#[test]
fn file_matches_the_default_formatting_of_a_list() {
    let points = [10000.0f64, 0.1, 1e21, 67123.455];
    let mean = points.iter().sum::<f64>() / 4.0;
    let rendered: Vec<String> = points.iter().map(|p| format!("{:?}", p)).collect();
    assert_eq!(
        render_summary(&format!("{}", mean), &rendered),
        format!("Average Price: {}\nData Points: {:?}", mean, points)
    );
}

#[test]
fn cache_file_path() {
    assert_eq!(CACHE_FILE, "cache_results.txt");
}

#[test]
fn read_present() {
    let contents = "Average Price: 10000\nData Points: [10000.0, 10002.0, 9998.0]";
    match read_report(Some(contents)) {
        ReadReport::Printed { heading, contents: printed } => {
            assert_eq!(heading, "Read complete. Contents of cache_results.txt:");
            assert_eq!(printed, contents);
            let mut lines = printed.lines();
            assert_eq!(lines.next(), Some("Average Price: 10000"));
            assert_eq!(lines.next(), Some("Data Points: [10000.0, 10002.0, 9998.0]"));
            assert_eq!(lines.next(), None);
        }
        other => panic!("the file was read, yet the reader reports {:?}", other),
    }
}

#[test]
fn read_missing() {
    match read_report(None) {
        ReadReport::Failed { diagnostic, exit_code } => {
            assert_eq!(diagnostic, "Failed to read from file or file not found.");
            assert_ne!(exit_code, 0);
            assert_eq!(exit_code, 1);
        }
        other => panic!("there is no file, yet the reader reports {:?}", other),
    }
}

#[test]
fn read_reproduces_what_was_rendered() {
    let written = render_summary("175", &texts(&["100.0", "200.0", "400.0"]));
    match read_report(Some(&written)) {
        ReadReport::Printed { contents, .. } => assert_eq!(contents, written),
        other => panic!("the file was read, yet the reader reports {:?}", other),
    }
}

#[test]
fn read_prints_any_contents_as_they_are() {
    for contents in ["", "\n", "no trailing newline", "tabs\tand\r\nlines\n", "ünïcödé ₿"] {
        assert_eq!(
            read_report(Some(contents)),
            ReadReport::Printed {
                heading: "Read complete. Contents of cache_results.txt:".to_string(),
                contents: contents.to_string(),
            }
        );
    }
}
