//! The project: the development environment and the top-level recipes, in
//! the order in which they are built.

use vstd::prelude::*;
use crate::artifact::{
    bat, bottom, cue, direnv, doppler, fd, golangci_lint, just, lazygit, libevent, ncurses,
    openapi_generator_cli, openjdk, ripgrep, starship, terraform, tmux,
};
use crate::composer::{Composer, ComposerView, Entry, EntryView};
use crate::devenv;
use crate::platform::Platform;

verus! {

/// The name of the project's development environment.
pub const ENVIRONMENT: &'static str = "dev";

/// The top-level recipes in their order. The OpenJDK comes first, and the
/// OpenAPI generator is built with its artifact rather than with one of its
/// own.
pub open spec fn spec_entries() -> Seq<EntryView> {
    seq![
        EntryView::new(openjdk::spec_recipe()),
        EntryView::new(bat::spec_recipe()),
        EntryView::new(bottom::spec_recipe()),
        EntryView::new(cue::spec_recipe()),
        EntryView::new(direnv::spec_recipe()),
        EntryView::new(doppler::spec_recipe()),
        EntryView::new(fd::spec_recipe()),
        EntryView::new(golangci_lint::spec_recipe()),
        EntryView::new(just::spec_recipe()),
        EntryView::new(lazygit::spec_recipe()),
        EntryView::new(libevent::spec_recipe()),
        EntryView::new(ncurses::spec_recipe()),
        EntryView::new(openapi_generator_cli::spec_recipe(None)).sharing(0, 0),
        EntryView::new(ripgrep::spec_recipe()),
        EntryView::new(starship::spec_recipe()),
        EntryView::new(terraform::spec_recipe()),
        EntryView::new(tmux::spec_recipe()),
    ]
}

/// The top-level recipes in their order.
pub fn entries() -> (entries: Vec<Entry>)
    ensures
        entries.deep_view() == spec_entries(),
{
    let mut entries: Vec<Entry> = Vec::new();
    entries.push(Entry::new(openjdk::recipe()));
    entries.push(Entry::new(bat::recipe()));
    entries.push(Entry::new(bottom::recipe()));
    entries.push(Entry::new(cue::recipe()));
    entries.push(Entry::new(direnv::recipe()));
    entries.push(Entry::new(doppler::recipe()));
    entries.push(Entry::new(fd::recipe()));
    entries.push(Entry::new(golangci_lint::recipe()));
    entries.push(Entry::new(just::recipe()));
    entries.push(Entry::new(lazygit::recipe()));
    entries.push(Entry::new(libevent::recipe()));
    entries.push(Entry::new(ncurses::recipe()));
    entries.push(Entry::new(openapi_generator_cli::recipe(None)).sharing(0, 0));
    entries.push(Entry::new(ripgrep::recipe()));
    entries.push(Entry::new(starship::recipe()));
    entries.push(Entry::new(terraform::recipe()));
    entries.push(Entry::new(tmux::recipe()));
    assert(entries.deep_view() =~= spec_entries());
    entries
}

/// The composer of the project for `platform`, before its first step. The
/// development environment is meant for every platform.
pub fn composer(platform: Platform) -> (composer: Composer)
    ensures
        composer@ == ComposerView::start(
            platform,
            devenv::spec_recipe(ENVIRONMENT@, Platform::spec_all()),
            spec_entries(),
        ),
        composer@.wf(),
{
    let systems = Platform::all();
    Composer::new(platform, devenv::recipe(ENVIRONMENT, &systems), entries())
}

} // verus!
