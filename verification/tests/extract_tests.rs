use songfetch::candidate::RawContainer;
use songfetch::extract::extract;

fn watch_raw(n: usize) -> RawContainer {
    RawContainer {
        duration_text: Some("3:42".to_string()),
        title: Some(format!("Video {}", n)),
        link: Some(format!("https://www.youtube.com/watch?v={}", n)),
        channel: Some(format!("Channel {}", n)),
    }
}

fn shorts_raw(n: usize) -> RawContainer {
    RawContainer {
        duration_text: Some("0:30".to_string()),
        title: Some(format!("Short {}", n)),
        link: Some(format!("https://www.youtube.com/shorts/{}", n)),
        channel: Some(format!("Channel {}", n)),
    }
}

#[test]
fn extract_returns_all_when_fewer_than_cap() {
    let containers: Vec<RawContainer> = (0..3).map(watch_raw).collect();
    let out = extract(&containers);
    assert_eq!(out.len(), 3);
    for (i, c) in out.iter().enumerate() {
        assert_eq!(c.title, format!("Video {}", i));
    }
}

#[test]
fn extract_caps_at_five_in_order() {
    let containers: Vec<RawContainer> = (0..7).map(watch_raw).collect();
    let out = extract(&containers);
    assert_eq!(out.len(), 5);
    for (i, c) in out.iter().enumerate() {
        assert_eq!(c.title, format!("Video {}", i));
        assert_eq!(c.link, format!("https://www.youtube.com/watch?v={}", i));
    }
}

#[test]
fn extract_empty_list() {
    let out = extract(&Vec::new());
    assert_eq!(out.len(), 0);
}

#[test]
fn extract_skips_short_form_videos() {
    // 7 of 10 containers are short-form; only the other three come back,
    // in their original relative order.
    let mut containers: Vec<RawContainer> = Vec::new();
    for n in 0..10 {
        if n == 2 || n == 5 || n == 9 {
            containers.push(watch_raw(n));
        } else {
            containers.push(shorts_raw(n));
        }
    }
    let out = extract(&containers);
    assert_eq!(out.len(), 3);
    assert_eq!(out[0].title, "Video 2");
    assert_eq!(out[1].title, "Video 5");
    assert_eq!(out[2].title, "Video 9");
}

#[test]
fn extract_never_exceeds_five_despite_later_matches() {
    // Two shorts first, then eight acceptable videos: only the first five
    // acceptable ones are returned.
    let mut containers: Vec<RawContainer> = Vec::new();
    containers.push(shorts_raw(0));
    containers.push(shorts_raw(1));
    for n in 2..10 {
        containers.push(watch_raw(n));
    }
    let out = extract(&containers);
    assert_eq!(out.len(), 5);
    for (i, c) in out.iter().enumerate() {
        assert_eq!(c.title, format!("Video {}", i + 2));
    }
}

#[test]
fn extract_continues_past_missing_duration() {
    let mut first = watch_raw(0);
    first.duration_text = None;
    let containers = vec![first, watch_raw(1)];
    let out = extract(&containers);
    assert_eq!(out.len(), 2);
    assert_eq!(out[0].duration, "");
    assert_eq!(out[0].title, "Video 0");
    assert_eq!(out[0].channel, "Channel 0");
    assert_eq!(out[1].duration, "3:42");
}

#[test]
fn extract_all_short_form_returns_none() {
    let containers: Vec<RawContainer> = (0..4).map(shorts_raw).collect();
    let out = extract(&containers);
    assert_eq!(out.len(), 0);
}
