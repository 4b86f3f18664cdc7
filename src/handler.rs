use vstd::prelude::*;

use crate::config::Config;

verus! {

/// How the external synchronizer is started.
pub struct Mbsync {
    pub command: String,
    /// Configuration file handed over with `-c`; `None` for the synchronizer's default.
    pub config_path: Option<String>,
}

/// Why a synchronization run failed.
#[derive(Debug, Clone, Copy, PartialEq, Eq, Structural)]
pub enum SyncError {
    /// The synchronizer could not be started.
    Spawn,
    /// It ran but did not exit with status zero (`None`: killed by a signal).
    Exited { code: Option<i32> },
}

/// The arguments the synchronizer is started with: all channels, verbose,
/// and the configuration file when one is set.
pub open spec fn mbsync_args(config_path: Option<Seq<char>>) -> Seq<Seq<char>> {
    let base = seq![seq!['-', 'a'], seq!['-', 'V']];
    match config_path {
        Some(p) => base + seq![seq!['-', 'c'], p],
        None => base,
    }
}

/// The view of an optional string.
pub open spec fn opt_view(s: Option<String>) -> Option<Seq<char>> {
    match s {
        Some(t) => Some(t@),
        None => None,
    }
}

impl Mbsync {
    /// A synchronizer started as `command`; an empty `config_path` means its
    /// default configuration.
    pub fn new(command: &str, config_path: &str) -> (m: Mbsync)
        ensures
            m.command@ == command@,
            opt_view(m.config_path) == (if config_path@.len() == 0 {
                None
            } else {
                Some(config_path@)
            }),
    {
        Mbsync {
            command: command.to_owned(),
            config_path: if config_path.is_empty() {
                None
            } else {
                Some(config_path.to_owned())
            },
        }
    }

    /// The arguments to start the synchronizer with.
    pub fn arguments(&self) -> (args: Vec<String>)
        ensures
            args@.map_values(|a: String| a@) == mbsync_args(opt_view(self.config_path)),
    {
        let mut args: Vec<String> = Vec::new();
        args.push("-a".to_owned());
        args.push("-V".to_owned());
        match &self.config_path {
            Some(p) => {
                args.push("-c".to_owned());
                args.push(p.clone());
            },
            None => {},
        }
        proof {
            reveal_strlit("-a");
            reveal_strlit("-V");
            reveal_strlit("-c");
            assert(args@[0]@ =~= seq!['-', 'a']);
            assert(args@[1]@ =~= seq!['-', 'V']);
            if self.config_path is Some {
                assert(args@[2]@ =~= seq!['-', 'c']);
            }
        }
        assert(args@.map_values(|a: String| a@) =~= mbsync_args(opt_view(self.config_path)));
        args
    }

    /// Judges a finished synchronizer run by its exit code (`None`: killed by
    /// a signal): it succeeded exactly when the code is zero.
    pub fn synchronize(&self, code: Option<i32>) -> (r: Result<(), SyncError>)
        ensures
            r is Ok <==> code == Some(0i32),
            r is Err ==> r == Err::<(), SyncError>(SyncError::Exited { code }),
    {
        if code == Some(0i32) {
            Ok(())
        } else {
            Err(SyncError::Exited { code })
        }
    }
}

/// Whether a server whose highest message identifier is `latest` (`None`:
/// an empty mailbox) has something new past the watermark `w`.
pub open spec fn fires(w: u32, latest: Option<u32>) -> bool {
    latest matches Some(u) && u > w
}

/// The watermark after seeing `latest`: it moves up to a greater identifier
/// and never down.
pub open spec fn advanced(w: u32, latest: Option<u32>) -> u32 {
    if fires(w, latest) {
        latest->0
    } else {
        w
    }
}

/// The highest of `w` and the identifiers `ids`.
pub open spec fn high(w: u32, ids: Seq<u32>) -> u32
    decreases ids.len(),
{
    if ids.len() == 0 {
        w
    } else if ids.last() > high(w, ids.drop_last()) {
        ids.last()
    } else {
        high(w, ids.drop_last())
    }
}

proof fn lemma_high_bounds(w: u32, ids: Seq<u32>)
    ensures
        high(w, ids) >= w,
        forall|k: int| 0 <= k < ids.len() ==> high(w, ids) >= ids[k],
        high(w, ids) == w || exists|k: int| 0 <= k < ids.len() && high(w, ids) == ids[k],
    decreases ids.len(),
{
    if ids.len() > 0 {
        let p = ids.drop_last();
        lemma_high_bounds(w, p);
        assert forall|k: int| 0 <= k < ids.len() implies high(w, ids) >= ids[k] by {
            if k < ids.len() - 1 {
                assert(p[k] == ids[k]);
            }
        }
        if high(w, ids) != w && high(w, ids) != ids.last() {
            let k = choose|k: int| 0 <= k < p.len() && high(w, p) == p[k];
            assert(ids[k] == p[k]);
        }
    }
}

proof fn lemma_watermarks_are_highs(ws: Seq<u32>, ids: Seq<u32>, i: int)
    requires
        ws.len() == ids.len() + 1,
        forall|k: int| 0 <= k < ids.len() ==> #[trigger] ws[k + 1] == advanced(ws[k], Some(ids[k])),
        0 <= i <= ids.len(),
    ensures
        ws[i] == high(ws[0], ids.subrange(0, i)),
    decreases i,
{
    if i > 0 {
        lemma_watermarks_are_highs(ws, ids, i - 1);
        assert(ids.subrange(0, i).drop_last() =~= ids.subrange(0, i - 1));
        assert(ws[(i - 1) + 1] == advanced(ws[i - 1], Some(ids[i - 1])));
    }
}

proof fn lemma_watermark_bounds(ws: Seq<u32>, ids: Seq<u32>, i: int)
    requires
        ws.len() == ids.len() + 1,
        forall|k: int| 0 <= k < ids.len() ==> #[trigger] ws[k + 1] == advanced(ws[k], Some(ids[k])),
        0 <= i <= ids.len(),
    ensures
        ws[i] == high(ws[0], ids.subrange(0, i)),
        ws[i] >= ws[0],
        forall|j: int| 0 <= j < i ==> ws[i] >= ids[j],
{
    lemma_watermarks_are_highs(ws, ids, i);
    lemma_high_bounds(ws[0], ids.subrange(0, i));
    assert forall|j: int| 0 <= j < i implies ws[i] >= ids[j] by {
        assert(ids.subrange(0, i)[j] == ids[j]);
    }
}

/// Once per new identifier: let `handle` be called with the highest
/// identifiers `ids[0], ids[1], ...` in turn, `ws[k]` being the watermark
/// before the call with `ids[k]` and `due[k]` what that call returned (as its
/// contract gives them). Then synchronization and notification are due only
/// for identifiers above the starting watermark and above every earlier one,
/// so never twice for one identifier and always in increasing order; the
/// watermark ends at the highest of the start and all identifiers. When the
/// identifiers never decrease, the first arrival of every identifier above
/// the starting watermark is due.
pub proof fn lemma_fires_once_per_new_id(ws: Seq<u32>, ids: Seq<u32>, due: Seq<bool>)
    requires
        ws.len() == ids.len() + 1,
        due.len() == ids.len(),
        forall|k: int| 0 <= k < ids.len() ==> #[trigger] ws[k + 1] == advanced(ws[k], Some(ids[k])),
        forall|k: int| 0 <= k < ids.len() ==> #[trigger] due[k] == fires(ws[k], Some(ids[k])),
    ensures
        forall|i: int| 0 <= i < ids.len() && #[trigger] due[i] ==> ids[i] > ws[0],
        forall|i: int, j: int|
            #![trigger due[i], ids[j]]
            0 <= j < i < ids.len() && due[i] ==> ids[j] < ids[i],
        forall|i: int, j: int|
            0 <= i < j < ids.len() && #[trigger] due[i] && #[trigger] due[j] ==> ids[i] < ids[j],
        ws.last() == high(ws[0], ids),
        (forall|i: int, j: int| 0 <= i <= j < ids.len() ==> ids[i] <= ids[j]) ==> forall|i: int|
            0 <= i < ids.len() && ids[i] > ws[0] && (forall|j: int| 0 <= j < i ==> ids[j] != ids[i])
                ==> #[trigger] due[i],
{
    assert forall|i: int| 0 <= i < ids.len() && #[trigger] due[i] implies ids[i] > ws[0] by {
        lemma_watermark_bounds(ws, ids, i);
    }
    assert forall|i: int, j: int|
        #![trigger due[i], ids[j]]
        0 <= j < i < ids.len() && due[i] implies ids[j] < ids[i] by {
        lemma_watermark_bounds(ws, ids, i);
    }
    assert forall|i: int, j: int|
        0 <= i < j < ids.len() && #[trigger] due[i] && #[trigger] due[j] implies ids[i] < ids[j] by {
        lemma_watermark_bounds(ws, ids, j);
    }
    lemma_watermark_bounds(ws, ids, ids.len() as int);
    assert(ids.subrange(0, ids.len() as int) =~= ids);
    assert(ws.last() == ws[ids.len() as int]);
    if forall|i: int, j: int| 0 <= i <= j < ids.len() ==> ids[i] <= ids[j] {
        assert forall|i: int|
            0 <= i < ids.len() && ids[i] > ws[0] && (forall|j: int| 0 <= j < i ==> ids[j] != ids[i])
                implies #[trigger] due[i] by {
            let p = ids.subrange(0, i);
            lemma_watermark_bounds(ws, ids, i);
            lemma_high_bounds(ws[0], p);
            if ws[i] != ws[0] {
                let k = choose|k: int| 0 <= k < p.len() && high(ws[0], p) == p[k];
                assert(p[k] == ids[k]);
                assert(ids[k] <= ids[i]);
                assert(ids[k] != ids[i]);
            }
        }
    }
}

/// The dispatcher of mailbox changes: it keeps the watermark, the highest
/// message identifier acted upon so far, and the synchronizer to run.
pub struct Handler {
    last_notified: u32,
    mbsync: Mbsync,
}

impl Handler {
    /// The highest message identifier acted upon so far.
    pub closed spec fn watermark(&self) -> u32 {
        self.last_notified
    }

    /// The synchronizer that is run for new mail.
    pub closed spec fn synchronizer(&self) -> Mbsync {
        self.mbsync
    }

    /// A dispatcher that has acted on nothing yet, with the synchronizer that
    /// `config` names.
    pub fn new(config: &Config) -> (h: Handler)
        ensures
            h.watermark() == 0,
            h.synchronizer().command@ == config.mbsync_path@,
            opt_view(h.synchronizer().config_path) == (if config.mbsync_conf@.len() == 0 {
                None
            } else {
                Some(config.mbsync_conf@)
            }),
    {
        Handler {
            last_notified: 0,
            mbsync: Mbsync::new(config.mbsync_path.as_str(), config.mbsync_conf.as_str()),
        }
    }

    /// The highest message identifier acted upon so far.
    pub fn last_notified(&self) -> (w: u32)
        ensures
            w == self.watermark(),
    {
        self.last_notified
    }

    /// The synchronizer that is run for new mail.
    pub fn mbsync(&self) -> (m: &Mbsync)
        ensures
            *m == self.synchronizer(),
    {
        &self.mbsync
    }

    /// Decides on one push event, given the highest message identifier on the
    /// server (`None`: the mailbox is empty). Returns whether synchronization
    /// and notification are due; if so the watermark has already moved up to
    /// that identifier.
    pub fn handle(&mut self, latest: Option<u32>) -> (due: bool)
        ensures
            due == fires(old(self).watermark(), latest),
            final(self).watermark() == advanced(old(self).watermark(), latest),
            final(self).watermark() >= old(self).watermark(),
            latest is None ==> !due && final(self).watermark() == old(self).watermark(),
            final(self).synchronizer() == old(self).synchronizer(),
    {
        match latest {
            Some(uid) => {
                if uid > self.last_notified {
                    self.last_notified = uid;
                    true
                } else {
                    false
                }
            },
            None => false,
        }
    }
}

} // verus!
