use promise_core::data::Episode;
use promise_core::data::Image;
use promise_core::data::Library;
use promise_core::data::Nav;
use promise_core::data::Show;
use promise_core::data::ShowLink;
use promise_core::menu::MenuEntry;
use promise_core::menu::show_menu;

fn link(s: &str) -> ShowLink {
    ShowLink { id: String::from(s) }
}

fn image(url: &str, width: u32, height: u32) -> Image {
    Image { url: String::from(url), width, height }
}

fn show_with_images(id: &str, images: Vec<Image>) -> Show {
    Show {
        id: String::from(id),
        name: String::from("Name"),
        publisher: String::from("Publisher"),
        images,
    }
}

#[test]
fn menu_for_followed_show_offers_unfollow() {
    let show = show_with_images("show-A", Vec::new());
    let library = Library { shows: vec![link("other"), link("show-A")] };
    let menu = show_menu(&show, &library);
    assert_eq!(
        menu,
        vec![
            MenuEntry::CopyLink(link("show-A")),
            MenuEntry::Separator,
            MenuEntry::Unfollow(link("show-A")),
        ]
    );
}

#[test]
fn menu_for_unfollowed_show_offers_follow() {
    let show = show_with_images("show-A", Vec::new());
    let library = Library { shows: vec![link("other")] };
    let menu = show_menu(&show, &library);
    assert_eq!(
        menu,
        vec![
            MenuEntry::CopyLink(link("show-A")),
            MenuEntry::Separator,
            MenuEntry::Follow(link("show-A")),
        ]
    );
}

#[test]
fn library_membership_is_by_identity() {
    let library = Library { shows: vec![link("a"), link("b")] };
    assert!(library.contains_show(&show_with_images("b", Vec::new())));
    assert!(!library.contains_show(&show_with_images("c", Vec::new())));
    let empty = Library { shows: Vec::new() };
    assert!(!empty.contains_show(&show_with_images("a", Vec::new())));
}

#[test]
fn show_link_and_nav_target() {
    let show = show_with_images("show-A", Vec::new());
    assert_eq!(show.link(), link("show-A"));
    assert_eq!(show.nav_target(), Nav::ShowDetail(link("show-A")));
}

#[test]
fn cover_picks_smallest_adequate_variant() {
    // Variants are listed largest first.
    let show = show_with_images(
        "s",
        vec![image("l", 640, 640), image("m", 300, 300), image("s", 64, 64)],
    );
    // The smallest variant at least 200x200 is the middle one.
    assert_eq!(show.cover_image(200, 200), Some(&image("m", 300, 300)));
    // Tiny wanted size: the smallest variant wins.
    assert_eq!(show.cover_image(10, 10), Some(&image("s", 64, 64)));
    // An exact fit is adequate.
    assert_eq!(show.cover_image(640, 640), Some(&image("l", 640, 640)));
}

#[test]
fn cover_falls_back_to_largest_when_none_is_adequate() {
    let episode = Episode {
        id: String::from("e"),
        name: String::from("E"),
        description: String::from("d"),
        images: vec![image("l", 640, 640), image("s", 64, 64)],
    };
    assert_eq!(episode.cover_image(1000, 1000), Some(&image("l", 640, 640)));
}

#[test]
fn cover_is_none_only_without_variants() {
    let show = show_with_images("s", Vec::new());
    assert_eq!(show.cover_image(100, 100), None);
}

#[test]
fn cover_requires_both_dimensions_adequate() {
    // Wide but short variant is not adequate for a square request.
    let show = show_with_images("s", vec![image("wide", 640, 100), image("sq", 200, 200)]);
    assert_eq!(show.cover_image(150, 150), Some(&image("sq", 200, 200)));
}
