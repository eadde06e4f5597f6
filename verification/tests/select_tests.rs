use songfetch::candidate::Candidate;
use songfetch::select::converter_args;
use songfetch::select::downloader_args;
use songfetch::select::selected_link;
use songfetch::select::strip_quotes;
use songfetch::select::validate_selection;

fn five_candidates() -> Vec<Candidate> {
    (0..5)
        .map(|n| Candidate {
            title: format!("Video {}", n),
            channel: format!("Channel {}", n),
            duration: "3:42".to_string(),
            link: format!("https://www.youtube.com/watch?v={}", n),
        })
        .collect()
}

#[test]
fn selection_zero_rejected() {
    assert_eq!(validate_selection(5, 0), None);
    assert_eq!(selected_link(&five_candidates(), 0), None);
}

#[test]
fn selection_six_rejected() {
    assert_eq!(validate_selection(5, 6), None);
    assert_eq!(selected_link(&five_candidates(), 6), None);
}

#[test]
fn selection_bounds_accepted() {
    assert_eq!(validate_selection(5, 1), Some(0));
    assert_eq!(validate_selection(5, 5), Some(4));
    assert_eq!(
        selected_link(&five_candidates(), 1),
        Some("https://www.youtube.com/watch?v=0".to_string())
    );
    assert_eq!(
        selected_link(&five_candidates(), 5),
        Some("https://www.youtube.com/watch?v=4".to_string())
    );
}

#[test]
fn selection_against_empty_list_rejected() {
    assert_eq!(selected_link(&Vec::new(), 1), None);
}

#[test]
fn strip_quotes_removes_all_quotes() {
    assert_eq!(
        strip_quotes("https://example.test/\"a\"b\""),
        "https://example.test/ab"
    );
    assert_eq!(strip_quotes("no quotes"), "no quotes");
}

#[test]
fn downloader_args_strip_quotes_from_link() {
    let args = downloader_args("https://www.youtube.com/watch?v=\"x\"");
    assert_eq!(
        args,
        vec![
            "https://www.youtube.com/watch?v=x",
            "-f",
            "best[ext=mp4]",
            "-o",
            "current.mp4",
        ]
    );
}

#[test]
fn converter_args_name_output_after_base() {
    assert_eq!(
        converter_args("my song"),
        vec!["-i", "current.mp4", "my song.mp3"]
    );
}
