use signage_server::args::parse;
use signage_server::args::Args;

#[test]
fn parse_without_options_gives_the_defaults() {
    let args = parse(None, None, None, None, None, None);
    assert_eq!(
        args,
        Args {
            image_timeout: 10,
            image_offset: 2,
            image_path: "./images.json".to_string(),
            popup_show: 5,
            popup_wait: 1,
            assets_dir: "./assets".to_string(),
        }
    );
    assert!(args.is_valid());
}

#[test]
fn parse_takes_each_option_given() {
    let args = parse(
        Some(30),
        Some(0),
        Some("/srv/list.json".to_string()),
        Some(8),
        Some(2),
        Some("/srv/assets".to_string()),
    );
    assert_eq!(
        args,
        Args {
            image_timeout: 30,
            image_offset: 0,
            image_path: "/srv/list.json".to_string(),
            popup_show: 8,
            popup_wait: 2,
            assets_dir: "/srv/assets".to_string(),
        }
    );
    let mixed = parse(None, Some(4), None, Some(6), None, Some("a".to_string()));
    assert_eq!(mixed.image_timeout, 10);
    assert_eq!(mixed.image_offset, 4);
    assert_eq!(mixed.image_path, "./images.json");
    assert_eq!(mixed.popup_show, 6);
    assert_eq!(mixed.popup_wait, 1);
    assert_eq!(mixed.assets_dir, "a");
}

#[test]
fn a_period_of_zero_seconds_is_not_valid() {
    assert!(!parse(Some(0), None, None, None, None, Some("a".to_string())).is_valid());
    assert!(!parse(None, None, None, Some(0), None, Some("a".to_string())).is_valid());
    assert!(!parse(None, None, None, None, Some(0), Some("a".to_string())).is_valid());
    assert!(parse(None, Some(0), None, None, None, Some("a".to_string())).is_valid());
}
