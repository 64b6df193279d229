//! The show context menu: which entries it offers, decided by library
//! membership. Presenting the entries is the caller's concern; this module
//! only decides what they are.

use vstd::prelude::*;
use crate::data::Library;
use crate::data::Show;
use crate::data::ShowLink;
use crate::data::library_contains;
use crate::ctx::Ctx;
use crate::data::CommonCtx;

verus! {

/// One entry of the show context menu.
#[derive(Debug, Clone, PartialEq, Eq)]
pub enum MenuEntry {
    /// Copy a link to the show.
    CopyLink(ShowLink),
    /// A visual divider between entry groups.
    Separator,
    /// Remove the show from the library.
    Unfollow(ShowLink),
    /// Save the show to the library.
    Follow(ShowLink),
}

/// Build the context menu for a show: a copy-link entry, a separator, and
/// then exactly one of unfollow (when the library already holds the show) or
/// follow (when it does not).
pub fn show_menu(show: &Show, library: &Library) -> (menu: Vec<MenuEntry>)
    ensures
        menu@.len() == 3,
        menu@[0] == (MenuEntry::CopyLink(ShowLink { id: show.id })),
        menu@[1] == MenuEntry::Separator,
        library_contains(library.shows@, show.id@) ==> menu@[2] == (MenuEntry::Unfollow(
            ShowLink { id: show.id },
        )),
        !library_contains(library.shows@, show.id@) ==> menu@[2] == (MenuEntry::Follow(
            ShowLink { id: show.id },
        )),
{
    let mut menu: Vec<MenuEntry> = Vec::new();
    menu.push(MenuEntry::CopyLink(show.link()));
    menu.push(MenuEntry::Separator);
    if library.contains_show(show) {
        menu.push(MenuEntry::Unfollow(show.link()));
    } else {
        menu.push(MenuEntry::Follow(show.link()));
    }
    menu
}

/// Build the context menu for a show wrapped with its shared context, which
/// carries the library the membership test runs against.
pub fn show_ctx_menu(wrapped: &Ctx<CommonCtx, Show>) -> (menu: Vec<MenuEntry>)
    ensures
        menu@.len() == 3,
        menu@[0] == (MenuEntry::CopyLink(ShowLink { id: wrapped.data.id })),
        menu@[1] == MenuEntry::Separator,
        library_contains(wrapped.ctx.library.shows@, wrapped.data.id@) ==> menu@[2] == (
        MenuEntry::Unfollow(ShowLink { id: wrapped.data.id })),
        !library_contains(wrapped.ctx.library.shows@, wrapped.data.id@) ==> menu@[2] == (
        MenuEntry::Follow(ShowLink { id: wrapped.data.id })),
{
    show_menu(&wrapped.data, &wrapped.ctx.library)
}

} // verus!
