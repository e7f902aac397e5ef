//! The parts of server state whose changes are reported.
//!
//! A notification names one subsystem by a token. [`Subsystem::from_raw_string`]
//! turns a token into a [`Subsystem`] and [`Subsystem::as_str`] gives the token
//! back; tokens without a variant of their own are kept as they came.

use vstd::prelude::*;
use vstd::std_specs::cmp::PartialEqSpecImpl;
use crate::text::str_eq;

verus! {

/// A part of server state that can change.
///
/// The named variants are the subsystems the protocol documents. `Other` keeps the
/// token of any subsystem without a variant, exactly as it was received.
#[allow(missing_docs)]
#[non_exhaustive]
#[derive(Debug, Eq, Hash)]
pub enum Subsystem {
    Database,
    Message,
    Mixer,
    Options,
    Output,
    Partition,
    Player,
    /// Called `playlist` in the protocol.
    Queue,
    Sticker,
    StoredPlaylist,
    Subscription,
    Update,
    Neighbor,
    Mount,
    /// A subsystem without a variant of its own, with its token as received.
    Other(String),
}

/// What a [`Subsystem`] is, with the unrecognized token as a sequence of characters.
#[allow(missing_docs)]
pub enum SubsystemView {
    Database,
    Message,
    Mixer,
    Options,
    Output,
    Partition,
    Player,
    Queue,
    Sticker,
    StoredPlaylist,
    Subscription,
    Update,
    Neighbor,
    Mount,
    Other(Seq<char>),
}

impl View for Subsystem {
    type V = SubsystemView;

    open spec fn view(&self) -> SubsystemView {
        match self {
            Subsystem::Database => SubsystemView::Database,
            Subsystem::Message => SubsystemView::Message,
            Subsystem::Mixer => SubsystemView::Mixer,
            Subsystem::Options => SubsystemView::Options,
            Subsystem::Output => SubsystemView::Output,
            Subsystem::Partition => SubsystemView::Partition,
            Subsystem::Player => SubsystemView::Player,
            Subsystem::Queue => SubsystemView::Queue,
            Subsystem::Sticker => SubsystemView::Sticker,
            Subsystem::StoredPlaylist => SubsystemView::StoredPlaylist,
            Subsystem::Subscription => SubsystemView::Subscription,
            Subsystem::Update => SubsystemView::Update,
            Subsystem::Neighbor => SubsystemView::Neighbor,
            Subsystem::Mount => SubsystemView::Mount,
            Subsystem::Other(token) => SubsystemView::Other(token@),
        }
    }
}

/// Whether `token` is one of the names the protocol documents.
pub open spec fn recognized(token: Seq<char>) -> bool {
    ||| token == "database"@
    ||| token == "message"@
    ||| token == "mixer"@
    ||| token == "options"@
    ||| token == "output"@
    ||| token == "partition"@
    ||| token == "player"@
    ||| token == "playlist"@
    ||| token == "sticker"@
    ||| token == "stored_playlist"@
    ||| token == "subscription"@
    ||| token == "update"@
    ||| token == "neighbor"@
    ||| token == "mount"@
}

/// The subsystem that a token names: the variant with that exact token, and
/// `Other` with the token itself where there is none.
pub open spec fn classify(token: Seq<char>) -> SubsystemView {
    if token == "database"@ {
        SubsystemView::Database
    } else if token == "message"@ {
        SubsystemView::Message
    } else if token == "mixer"@ {
        SubsystemView::Mixer
    } else if token == "options"@ {
        SubsystemView::Options
    } else if token == "output"@ {
        SubsystemView::Output
    } else if token == "partition"@ {
        SubsystemView::Partition
    } else if token == "player"@ {
        SubsystemView::Player
    } else if token == "playlist"@ {
        SubsystemView::Queue
    } else if token == "sticker"@ {
        SubsystemView::Sticker
    } else if token == "stored_playlist"@ {
        SubsystemView::StoredPlaylist
    } else if token == "subscription"@ {
        SubsystemView::Subscription
    } else if token == "update"@ {
        SubsystemView::Update
    } else if token == "neighbor"@ {
        SubsystemView::Neighbor
    } else if token == "mount"@ {
        SubsystemView::Mount
    } else {
        SubsystemView::Other(token)
    }
}

/// The token by which the protocol names a subsystem.
pub open spec fn render(subsystem: SubsystemView) -> Seq<char> {
    match subsystem {
        SubsystemView::Database => "database"@,
        SubsystemView::Message => "message"@,
        SubsystemView::Mixer => "mixer"@,
        SubsystemView::Options => "options"@,
        SubsystemView::Output => "output"@,
        SubsystemView::Partition => "partition"@,
        SubsystemView::Player => "player"@,
        SubsystemView::Queue => "playlist"@,
        SubsystemView::Sticker => "sticker"@,
        SubsystemView::StoredPlaylist => "stored_playlist"@,
        SubsystemView::Subscription => "subscription"@,
        SubsystemView::Update => "update"@,
        SubsystemView::Neighbor => "neighbor"@,
        SubsystemView::Mount => "mount"@,
        SubsystemView::Other(token) => token,
    }
}

impl Subsystem {
    /// Classifies a token of the protocol. Every string is accepted: one that is
    /// not a documented name, the empty string too, comes back inside `Other`.
    pub fn from_raw_string(raw: String) -> (subsystem: Subsystem)
        ensures
            subsystem@ == classify(raw@),
    {
        let token = raw.as_str();
        if str_eq(token, "database") {
            Subsystem::Database
        } else if str_eq(token, "message") {
            Subsystem::Message
        } else if str_eq(token, "mixer") {
            Subsystem::Mixer
        } else if str_eq(token, "options") {
            Subsystem::Options
        } else if str_eq(token, "output") {
            Subsystem::Output
        } else if str_eq(token, "partition") {
            Subsystem::Partition
        } else if str_eq(token, "player") {
            Subsystem::Player
        } else if str_eq(token, "playlist") {
            Subsystem::Queue
        } else if str_eq(token, "sticker") {
            Subsystem::Sticker
        } else if str_eq(token, "stored_playlist") {
            Subsystem::StoredPlaylist
        } else if str_eq(token, "subscription") {
            Subsystem::Subscription
        } else if str_eq(token, "update") {
            Subsystem::Update
        } else if str_eq(token, "neighbor") {
            Subsystem::Neighbor
        } else if str_eq(token, "mount") {
            Subsystem::Mount
        } else {
            Subsystem::Other(raw)
        }
    }

    /// Returns the raw protocol name used for this subsystem.
    pub fn as_str(&self) -> (token: &str)
        ensures
            token@ == render(self@),
    {
        match self {
            Subsystem::Database => "database",
            Subsystem::Message => "message",
            Subsystem::Mixer => "mixer",
            Subsystem::Options => "options",
            Subsystem::Output => "output",
            Subsystem::Partition => "partition",
            Subsystem::Player => "player",
            Subsystem::Queue => "playlist",
            Subsystem::Sticker => "sticker",
            Subsystem::StoredPlaylist => "stored_playlist",
            Subsystem::Subscription => "subscription",
            Subsystem::Update => "update",
            Subsystem::Neighbor => "neighbor",
            Subsystem::Mount => "mount",
            Subsystem::Other(token) => token.as_str(),
        }
    }
}

impl Clone for Subsystem {
    fn clone(&self) -> (copy: Subsystem)
        ensures
            copy@ == self@,
    {
        match self {
            Subsystem::Database => Subsystem::Database,
            Subsystem::Message => Subsystem::Message,
            Subsystem::Mixer => Subsystem::Mixer,
            Subsystem::Options => Subsystem::Options,
            Subsystem::Output => Subsystem::Output,
            Subsystem::Partition => Subsystem::Partition,
            Subsystem::Player => Subsystem::Player,
            Subsystem::Queue => Subsystem::Queue,
            Subsystem::Sticker => Subsystem::Sticker,
            Subsystem::StoredPlaylist => Subsystem::StoredPlaylist,
            Subsystem::Subscription => Subsystem::Subscription,
            Subsystem::Update => Subsystem::Update,
            Subsystem::Neighbor => Subsystem::Neighbor,
            Subsystem::Mount => Subsystem::Mount,
            Subsystem::Other(token) => Subsystem::Other(token.clone()),
        }
    }
}

impl PartialEq for Subsystem {
    fn eq(&self, other: &Subsystem) -> (same: bool) {
        match (self, other) {
            (Subsystem::Database, Subsystem::Database) => true,
            (Subsystem::Message, Subsystem::Message) => true,
            (Subsystem::Mixer, Subsystem::Mixer) => true,
            (Subsystem::Options, Subsystem::Options) => true,
            (Subsystem::Output, Subsystem::Output) => true,
            (Subsystem::Partition, Subsystem::Partition) => true,
            (Subsystem::Player, Subsystem::Player) => true,
            (Subsystem::Queue, Subsystem::Queue) => true,
            (Subsystem::Sticker, Subsystem::Sticker) => true,
            (Subsystem::StoredPlaylist, Subsystem::StoredPlaylist) => true,
            (Subsystem::Subscription, Subsystem::Subscription) => true,
            (Subsystem::Update, Subsystem::Update) => true,
            (Subsystem::Neighbor, Subsystem::Neighbor) => true,
            (Subsystem::Mount, Subsystem::Mount) => true,
            (Subsystem::Other(a), Subsystem::Other(b)) => str_eq(a.as_str(), b.as_str()),
            _ => false,
        }
    }
}

impl PartialEqSpecImpl for Subsystem {
    open spec fn obeys_eq_spec() -> bool {
        true
    }

    open spec fn eq_spec(&self, other: &Subsystem) -> bool {
        self@ == other@
    }
}

/// The characters of every documented token.
pub proof fn lemma_token_spellings()
    ensures
        "database"@ == seq!['d', 'a', 't', 'a', 'b', 'a', 's', 'e'],
        "message"@ == seq!['m', 'e', 's', 's', 'a', 'g', 'e'],
        "mixer"@ == seq!['m', 'i', 'x', 'e', 'r'],
        "options"@ == seq!['o', 'p', 't', 'i', 'o', 'n', 's'],
        "output"@ == seq!['o', 'u', 't', 'p', 'u', 't'],
        "partition"@ == seq!['p', 'a', 'r', 't', 'i', 't', 'i', 'o', 'n'],
        "player"@ == seq!['p', 'l', 'a', 'y', 'e', 'r'],
        "playlist"@ == seq!['p', 'l', 'a', 'y', 'l', 'i', 's', 't'],
        "sticker"@ == seq!['s', 't', 'i', 'c', 'k', 'e', 'r'],
        "stored_playlist"@ == seq![
            's', 't', 'o', 'r', 'e', 'd', '_', 'p', 'l', 'a', 'y', 'l', 'i', 's', 't',
        ],
        "subscription"@ == seq!['s', 'u', 'b', 's', 'c', 'r', 'i', 'p', 't', 'i', 'o', 'n'],
        "update"@ == seq!['u', 'p', 'd', 'a', 't', 'e'],
        "neighbor"@ == seq!['n', 'e', 'i', 'g', 'h', 'b', 'o', 'r'],
        "mount"@ == seq!['m', 'o', 'u', 'n', 't'],
{
    reveal_strlit("database");
    reveal_strlit("message");
    reveal_strlit("mixer");
    reveal_strlit("options");
    reveal_strlit("output");
    reveal_strlit("partition");
    reveal_strlit("player");
    reveal_strlit("playlist");
    reveal_strlit("sticker");
    reveal_strlit("stored_playlist");
    reveal_strlit("subscription");
    reveal_strlit("update");
    reveal_strlit("neighbor");
    reveal_strlit("mount");
    assert("database"@ =~= seq!['d', 'a', 't', 'a', 'b', 'a', 's', 'e']);
    assert("message"@ =~= seq!['m', 'e', 's', 's', 'a', 'g', 'e']);
    assert("mixer"@ =~= seq!['m', 'i', 'x', 'e', 'r']);
    assert("options"@ =~= seq!['o', 'p', 't', 'i', 'o', 'n', 's']);
    assert("output"@ =~= seq!['o', 'u', 't', 'p', 'u', 't']);
    assert("partition"@ =~= seq!['p', 'a', 'r', 't', 'i', 't', 'i', 'o', 'n']);
    assert("player"@ =~= seq!['p', 'l', 'a', 'y', 'e', 'r']);
    assert("playlist"@ =~= seq!['p', 'l', 'a', 'y', 'l', 'i', 's', 't']);
    assert("sticker"@ =~= seq!['s', 't', 'i', 'c', 'k', 'e', 'r']);
    assert("stored_playlist"@ =~= seq![
        's', 't', 'o', 'r', 'e', 'd', '_', 'p', 'l', 'a', 'y', 'l', 'i', 's', 't',
    ]);
    assert("subscription"@ =~= seq!['s', 'u', 'b', 's', 'c', 'r', 'i', 'p', 't', 'i', 'o', 'n']);
    assert("update"@ =~= seq!['u', 'p', 'd', 'a', 't', 'e']);
    assert("neighbor"@ =~= seq!['n', 'e', 'i', 'g', 'h', 'b', 'o', 'r']);
    assert("mount"@ =~= seq!['m', 'o', 'u', 'n', 't']);
}

/// Rendering a classified token gives the token back, whatever the token is.
pub proof fn lemma_render_classify(token: Seq<char>)
    ensures
        render(classify(token)) == token,
{
}

/// Classifying the token of a named variant gives that variant back: on the
/// documented tokens `classify` and `render` are inverses of each other, with
/// `playlist` standing for `Queue`.
pub proof fn lemma_classify_render(subsystem: SubsystemView)
    requires
        !(subsystem is Other),
    ensures
        recognized(render(subsystem)),
        classify(render(subsystem)) == subsystem,
{
    lemma_token_spellings();
}

/// A token that is not a documented name is kept whole inside `Other`, from
/// which rendering returns it unchanged.
pub proof fn lemma_classify_unrecognized(token: Seq<char>)
    requires
        !recognized(token),
    ensures
        classify(token) == SubsystemView::Other(token),
        render(SubsystemView::Other(token)) == token,
{
}

/// A token is classified as `Other` exactly when it is not a documented name.
pub proof fn lemma_other_iff_unrecognized(token: Seq<char>)
    ensures
        classify(token) is Other <==> !recognized(token),
{
}

/// The empty string is not a documented name.
pub proof fn lemma_empty_unrecognized()
    ensures
        !recognized(Seq::<char>::empty()),
        classify(Seq::<char>::empty()) == SubsystemView::Other(Seq::<char>::empty()),
{
    if recognized(Seq::<char>::empty()) {
        lemma_recognized_length(Seq::<char>::empty());
    }
}

/// Every documented name has between five and fifteen characters.
pub proof fn lemma_recognized_length(token: Seq<char>)
    requires
        recognized(token),
    ensures
        5 <= token.len() <= 15,
{
    lemma_token_spellings();
}

/// Classification depends on the characters of the token alone: equal tokens
/// are classified alike, and two tokens that both fall to `Other` are
/// classified alike only if they are equal.
pub proof fn lemma_classify_is_a_function(a: Seq<char>, b: Seq<char>)
    ensures
        a == b ==> classify(a) == classify(b),
        classify(a) == classify(b) ==> a == b,
{
    lemma_render_classify(a);
    lemma_render_classify(b);
}

/// Classifying again what a classified token renders to changes nothing.
pub proof fn lemma_classify_idempotent(token: Seq<char>)
    ensures
        classify(render(classify(token))) == classify(token),
{
    lemma_render_classify(token);
}

} // verus!
