//! The external media player: which binary is launched and with what URL.
//! Spawning the process is the surrounding application's work.

use vstd::prelude::*;
use vstd::string::StringExecFns;

use crate::item::ResultItem;
use crate::store::ResultStore;

verus! {

/// The external media player this client launches for a selected video.
pub struct Player {
    bin: String,
}

impl Player {
    /// The path of the player binary.
    pub closed spec fn spec_bin(self) -> Seq<char> {
        self.bin@
    }

    pub fn new() -> (r: Self)
        ensures
            r.spec_bin() == "/usr/bin/celluloid"@,
    {
        Player { bin: "/usr/bin/celluloid".to_owned() }
    }

    pub fn bin(&self) -> (r: &String)
        ensures
            r@ == self.spec_bin(),
    {
        &self.bin
    }
}

/// The page the external player is pointed at for a video id.
pub fn watch_url(id: &str) -> (r: String)
    ensures
        r@ == "https://www.youtube.com/watch?v="@ + id@,
{
    let mut url = "https://www.youtube.com/watch?v=".to_owned();
    url.append(id);
    url
}

/// The id to hand the external player: present exactly when the selected
/// item is a video.
pub fn play_target(store: &ResultStore) -> (r: Option<&String>)
    requires
        store.wf(),
    ensures
        match store@.sel {
            Some(i) => match store@.items[i] {
                ResultItem::Video { id, .. } => r matches Some(rid) && rid@ == id@,
                _ => r is None,
            },
            None => r is None,
        },
{
    match store.selected() {
        Some(ResultItem::Video { id, .. }) => Some(id),
        _ => None,
    }
}

} // verus!
