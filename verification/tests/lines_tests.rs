use text_analysis_tool::app::TEXT;
use text_analysis_tool::app::lines_text;
use text_analysis_tool::app::split_lines;

#[test]
fn split_lines_matches_std_lines_on_samples() {
    let samples = [
        "",
        "a",
        "a\n",
        "a\r\n",
        "a\r",
        "\n",
        "\r\n",
        "a\n\nb",
        "one\ntwo\nthree",
        "one\r\ntwo\r\n",
        "mixed\nendings\r\nhere\r",
        "single line",
    ];
    for s in samples {
        let got = split_lines(s);
        let want: Vec<&str> = s.lines().collect();
        assert_eq!(got, want, "splitting {:?}", s);
    }
}

#[test]
fn split_lines_edge_cases() {
    assert_eq!(split_lines(""), Vec::<&str>::new());
    assert_eq!(split_lines("a\nb"), vec!["a", "b"]);
    assert_eq!(split_lines("a\r\nb"), vec!["a", "b"]);
    assert_eq!(split_lines("a\n"), vec!["a"]);
    assert_eq!(split_lines("\n"), vec![""]);
    assert_eq!(split_lines("a\r"), vec!["a\r"]);
}

#[test]
fn single_line_source_has_one_row() {
    assert_eq!(split_lines("single line").len(), 1);
}

#[test]
fn lines_text_is_the_asset_split_into_rows() {
    let rows = lines_text();
    assert_eq!(rows, TEXT.lines().collect::<Vec<&str>>());
    assert_eq!(rows.len(), 22);
    assert_eq!(rows[0], "service booting, reading configuration");
    assert_eq!(rows[21], "2026-01-07 09:14:33 INFO  idle, awaiting connections");
}
