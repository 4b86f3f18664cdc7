use vstd::prelude::*;

verus! {

/// What is known of one entry found under the mailbox's directory.
#[derive(Debug, Clone, Copy, PartialEq, Eq, Structural)]
pub struct FileInfo {
    /// Its name starts with a dot.
    pub hidden: bool,
    /// It is a plain file whose metadata could be read.
    pub is_file: bool,
    /// Creation time in nanoseconds since the epoch, when known.
    pub created: Option<u64>,
}

/// Whether an entry is a candidate for the newest message: a visible plain
/// file created at `cutoff` or later.
pub open spec fn is_recent_message(f: FileInfo, cutoff: u64) -> bool {
    &&& !f.hidden
    &&& f.is_file
    &&& f.created matches Some(t) && t >= cutoff
}

/// Whether a file name marks a hidden entry; a name that is not text is not.
pub fn is_hidden(name: Option<&str>) -> (r: bool)
    ensures
        r == (name matches Some(s) && (s@.len() > 0 && s@[0] == '.')),
{
    match name {
        Some(s) => s.unicode_len() > 0 && s.get_char(0) == '.',
        None => false,
    }
}

/// The position of the newest recent message among `files`: among the
/// candidates, the one created last, and of those created at the same time
/// the one found last. `None` when there is no candidate.
pub fn newest_message(files: &Vec<FileInfo>, cutoff: u64) -> (r: Option<usize>)
    ensures
        r is None <==> forall|i: int| 0 <= i < files@.len() ==> !is_recent_message(files@[i], cutoff),
        r matches Some(k) ==> {
            &&& k < files@.len()
            &&& is_recent_message(files@[k as int], cutoff)
            &&& forall|i: int|
                0 <= i < files@.len() && is_recent_message(files@[i], cutoff) ==> files@[i].created->0
                    <= files@[k as int].created->0
            &&& forall|i: int|
                k < i < files@.len() && is_recent_message(files@[i], cutoff) ==> files@[i].created->0
                    < files@[k as int].created->0
        },
{
    let mut best: Option<usize> = None;
    let mut i: usize = 0;
    while i < files.len()
        invariant
            i <= files@.len(),
            best is None <==> forall|j: int| 0 <= j < i ==> !is_recent_message(files@[j], cutoff),
            best matches Some(k) ==> {
                &&& k < i
                &&& is_recent_message(files@[k as int], cutoff)
                &&& forall|j: int|
                    0 <= j < i && is_recent_message(files@[j], cutoff) ==> files@[j].created->0
                        <= files@[k as int].created->0
                &&& forall|j: int|
                    k < j < i && is_recent_message(files@[j], cutoff) ==> files@[j].created->0
                        < files@[k as int].created->0
            },
        decreases files@.len() - i,
    {
        let f = files[i];
        if !f.hidden && f.is_file {
            if let Some(t) = f.created {
                if t >= cutoff {
                    match best {
                        Some(k) => {
                            if files[k].created.unwrap() <= t {
                                best = Some(i);
                            }
                        },
                        None => {
                            best = Some(i);
                        },
                    }
                }
            }
        }
        i = i + 1;
    }
    best
}

/// Where the text editor listens for the request to look at the mail again.
pub struct Emacs {
    pub service: String,
    pub object_path: String,
    pub interface: String,
    /// Methods called in turn: reindex the store, then refresh the views.
    pub methods: Vec<String>,
    pub timeout_ms: u64,
}

impl Emacs {
    pub fn new() -> (e: Emacs)
        ensures
            e.service@ == "net.ogbe.emacs"@,
            e.object_path@ == "/mail"@,
            e.interface@ == "net.ogbe.emacs.mail"@,
            e.methods@.len() == 2,
            e.methods@[0]@ == "reindex"@,
            e.methods@[1]@ == "refresh"@,
            e.timeout_ms == 5000,
    {
        let mut methods: Vec<String> = Vec::new();
        methods.push("reindex".to_owned());
        methods.push("refresh".to_owned());
        Emacs {
            service: "net.ogbe.emacs".to_owned(),
            object_path: "/mail".to_owned(),
            interface: "net.ogbe.emacs.mail".to_owned(),
            methods,
            timeout_ms: 5000,
        }
    }
}

/// How the new-mail sound is played: the embedded asset is piped into the
/// player's standard input.
pub struct SoundNotifier {
    pub asset: String,
    pub player: String,
    pub player_args: Vec<String>,
}

impl SoundNotifier {
    pub fn new() -> (s: SoundNotifier)
        ensures
            s.asset@ == "snd1.wav"@,
            s.player@ == "aplay"@,
            s.player_args@.len() == 1,
            s.player_args@[0]@ == "-"@,
    {
        let mut player_args: Vec<String> = Vec::new();
        player_args.push("-".to_owned());
        SoundNotifier {
            asset: "snd1.wav".to_owned(),
            player: "aplay".to_owned(),
            player_args,
        }
    }
}

} // verus!
