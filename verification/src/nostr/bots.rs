//! Which bot identity speaks for each kind of announcement, where a bot's
//! key comes from, and what a publication across relays achieved.

use vstd::prelude::*;
use vstd::string::*;
use crate::text::{is_prefix, starts_with, str_eq};

verus! {

/// Where a bot's secret key is read from.
#[derive(Debug, PartialEq, Eq)]
pub enum NsecSource {
    /// The named environment variable (a path written `env:NAME`).
    Environment(String),
    /// The file at the path.
    File(String),
}

/// Where the key at `path` is read from.
pub fn nsec_source(path: &str) -> (r: NsecSource)
    ensures
        is_prefix("env:"@, path@) ==> (r matches NsecSource::Environment(v) && v@ == path@.subrange(4, path@.len() as int)),
        !is_prefix("env:"@, path@) ==> (r matches NsecSource::File(p) && p@ == path@),
{
    if starts_with(path, "env:") {
        proof {
            reveal_strlit("env:");
        }
        NsecSource::Environment(String::from_str(path.substring_char(4, path.unicode_len())))
    } else {
        NsecSource::File(String::from_str(path))
    }
}

/// The bots that run: the configured ones, or, where none is configured and
/// a legacy key path is set, a single `gov` bot.
pub fn bots_to_start(configured: &Vec<String>, server_nsec_path: &str) -> (r: (Vec<String>, bool))
    ensures
        configured@.len() > 0 ==> r.0@ == configured@ && !r.1,
        configured@.len() == 0 && server_nsec_path@.len() > 0 ==> r.0@.len() == 1 && r.0@[0]@ == "gov"@ && r.1,
        configured@.len() == 0 && server_nsec_path@.len() == 0 ==> r.0@.len() == 0 && !r.1,
{
    if configured.len() > 0 {
        let mut out: Vec<String> = Vec::new();
        let n = configured.len();
        let mut i: usize = 0;
        while i < n
            invariant
                n == configured@.len(),
                i <= n,
                out@ == configured@.subrange(0, i as int),
            decreases n - i,
        {
            out.push(configured[i].clone());
            proof {
                assert(out@ =~= configured@.subrange(0, i + 1));
            }
            i = i + 1;
        }
        proof {
            assert(configured@.subrange(0, n as int) =~= configured@);
        }
        (out, false)
    } else if server_nsec_path.unicode_len() > 0 {
        let mut v: Vec<String> = Vec::new();
        v.push(String::from_str("gov"));
        (v, true)
    } else {
        (Vec::new(), false)
    }
}

/// Some bot is named `id`.
pub open spec fn has_bot(bots: Seq<String>, id: Seq<char>) -> bool {
    exists|i: int| 0 <= i < bots.len() && bots[i]@ == id
}

fn bot_present(bots: &Vec<String>, id: &str) -> (r: bool)
    ensures
        r == has_bot(bots@, id@),
{
    let n = bots.len();
    let mut i: usize = 0;
    while i < n
        invariant
            n == bots@.len(),
            i <= n,
            forall|j: int| 0 <= j < i ==> bots@[j]@ != id@,
        decreases n - i,
    {
        if str_eq(bots[i].as_str(), id) {
            return true;
        }
        i = i + 1;
    }
    false
}

/// The bot that speaks for a purpose: the first of its preferences that
/// runs.
pub open spec fn chosen_bot(bots: Seq<String>, prefs: Seq<Seq<char>>) -> Option<Seq<char>>
    decreases prefs.len(),
{
    if prefs.len() == 0 {
        None
    } else if has_bot(bots, prefs[0]) {
        Some(prefs[0])
    } else {
        chosen_bot(bots, prefs.drop_first())
    }
}

/// The kinds of announcement.
#[derive(Debug, PartialEq, Eq, Structural)]
pub enum BotPurpose {
    Governance,
    Development,
    Research,
    Network,
}

/// The bots a purpose may use, most preferred first.
pub open spec fn preferences(p: BotPurpose) -> Seq<Seq<char>> {
    match p {
        BotPurpose::Governance => seq!["gov"@],
        BotPurpose::Development => seq!["dev"@, "gov"@],
        BotPurpose::Research => seq!["research"@, "dev"@, "gov"@],
        BotPurpose::Network => seq!["network"@, "dev"@, "gov"@],
    }
}

/// The id of the bot that speaks for a purpose, where one runs.
pub fn bot_for(bots: &Vec<String>, purpose: BotPurpose) -> (r: Option<String>)
    ensures
        match r {
            Some(id) => chosen_bot(bots@, preferences(purpose)) == Some(id@),
            None => chosen_bot(bots@, preferences(purpose)) is None,
        },
{
    proof {
        let p = preferences(purpose);
        reveal_with_fuel(chosen_bot, 4);
        assert(p.drop_first().drop_first().drop_first().len() == 0 || p.len() <= 3);
    }
    let first: &str = match purpose {
        BotPurpose::Governance => "gov",
        BotPurpose::Development => "dev",
        BotPurpose::Research => "research",
        BotPurpose::Network => "network",
    };
    if bot_present(bots, first) {
        return Some(String::from_str(first));
    }
    match purpose {
        BotPurpose::Governance => None,
        BotPurpose::Development => {
            proof {
                assert(preferences(purpose).drop_first() =~= seq!["gov"@]);
            }
            if bot_present(bots, "gov") { Some(String::from_str("gov")) } else { None }
        },
        _ => {
            proof {
                assert(preferences(purpose).drop_first() =~= seq!["dev"@, "gov"@]);
                assert(preferences(purpose).drop_first().drop_first() =~= seq!["gov"@]);
            }
            if bot_present(bots, "dev") {
                Some(String::from_str("dev"))
            } else if bot_present(bots, "gov") {
                Some(String::from_str("gov"))
            } else {
                None
            }
        },
    }
}

/// What a publication to every relay achieved: how many relays took it and
/// which refused; it fails when none took it.
pub fn publish_outcome(results: &Vec<(String, bool)>) -> (r: Result<(usize, Vec<String>), String>)
    ensures
        match r {
            Ok((ok, failed)) => ok > 0 && ok + failed@.len() == results@.len(),
            Err(m) => m@ == "Failed to publish to any relay"@ && forall|i: int| 0 <= i < results@.len() ==> !(#[trigger] results@[i]).1,
        },
{
    let mut ok: usize = 0;
    let mut failed: Vec<String> = Vec::new();
    let n = results.len();
    let mut i: usize = 0;
    while i < n
        invariant
            n == results@.len(),
            i <= n,
            ok + failed@.len() == i,
            ok == 0 ==> forall|j: int| 0 <= j < i ==> !(#[trigger] results@[j]).1,
        decreases n - i,
    {
        if results[i].1 {
            ok = ok + 1;
        } else {
            failed.push(results[i].0.clone());
        }
        i = i + 1;
    }
    if ok == 0 {
        Err(String::from_str("Failed to publish to any relay"))
    } else {
        Ok((ok, failed))
    }
}

} // verus!
