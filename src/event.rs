//! Filesystem notifications as delivered by the debounced watcher, with their
//! paths given as text.
use vstd::prelude::*;
use crate::filter::{is_whitelisted, whitelisted};

verus! {

/// One coalesced change notification. Paths are the text of the path, or the
/// empty string where the path is not valid Unicode.
#[derive(Clone, Debug)]
pub enum WatchEvent {
    NoticeWrite(String),
    NoticeRemove(String),
    Create(String),
    Write(String),
    Chmod(String),
    Remove(String),
    Rename(String, String),
    Rescan,
    Error,
}

/// Whether an event calls for re-validation: a single-path event when its
/// path is whitelisted, a rename when either of its paths is.
pub open spec fn triggers(ev: WatchEvent) -> bool {
    match ev {
        WatchEvent::NoticeWrite(p) => whitelisted(p@),
        WatchEvent::NoticeRemove(p) => whitelisted(p@),
        WatchEvent::Create(p) => whitelisted(p@),
        WatchEvent::Write(p) => whitelisted(p@),
        WatchEvent::Chmod(p) => whitelisted(p@),
        WatchEvent::Remove(p) => whitelisted(p@),
        WatchEvent::Rename(old, new) => whitelisted(old@) || whitelisted(new@),
        WatchEvent::Rescan => false,
        WatchEvent::Error => false,
    }
}

/// Classifies a notification; a rename triggers exactly when its old or its
/// new path is whitelisted.
pub fn is_trigger(ev: &WatchEvent) -> (r: bool)
    ensures
        r == triggers(*ev),
        ev matches WatchEvent::Rename(old, new) ==> r == (whitelisted(old@) || whitelisted(new@)),
{
    match ev {
        WatchEvent::NoticeWrite(p) => is_whitelisted(p.as_str()),
        WatchEvent::NoticeRemove(p) => is_whitelisted(p.as_str()),
        WatchEvent::Create(p) => is_whitelisted(p.as_str()),
        WatchEvent::Write(p) => is_whitelisted(p.as_str()),
        WatchEvent::Chmod(p) => is_whitelisted(p.as_str()),
        WatchEvent::Remove(p) => is_whitelisted(p.as_str()),
        WatchEvent::Rename(old, new) => is_whitelisted(old.as_str()) || is_whitelisted(
            new.as_str(),
        ),
        WatchEvent::Rescan => false,
        WatchEvent::Error => false,
    }
}

} // verus!
