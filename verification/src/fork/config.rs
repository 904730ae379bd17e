//! The governance configuration as one JSON object, assembled from the YAML
//! files of a configuration directory: `action-tiers.yml`,
//! `economic-nodes.yml`, and the files of `maintainers/` and `repos/`, each
//! of those under its file stem.

use vstd::prelude::*;
use vstd::string::*;
use crate::build::release::{is_permutation, lemma_name_order_unique, name_order, sorted_order, sorted_stable};
use crate::error::GovernanceError;
use crate::json::{json_quote, spec_json_string, spec_yaml_to_json, yaml_to_json};
use crate::text::{join, join_strings, views};

verus! {

/// Whether `serde_yaml` reads the text.
pub open spec fn converts(text: Seq<char>) -> bool {
    spec_yaml_to_json(text) is Ok
}

/// The JSON text of YAML text that converts (empty otherwise).
pub open spec fn converted(text: Seq<char>) -> Seq<char> {
    match spec_yaml_to_json(text) {
        Ok(j) => j,
        Err(_) => Seq::empty(),
    }
}

/// The error for a file whose text does not convert.
pub open spec fn parse_error(file: Seq<char>, text: Seq<char>) -> Option<Seq<char>> {
    match spec_yaml_to_json(text) {
        Ok(_) => None,
        Err(e) => Some("Failed to parse "@ + file + ": "@ + e),
    }
}

/// The file of a directory entry, relative to the configuration directory.
pub open spec fn entry_file(dir: Seq<char>, stem: Seq<char>) -> Seq<char> {
    dir + "/"@ + stem + ".yml"@
}

/// The error for the first entry of a directory, in the order given, whose
/// text does not convert.
pub open spec fn entries_error(dir: Seq<char>, entries: Seq<(String, String)>) -> Option<Seq<char>>
    decreases entries.len(),
{
    if entries.len() == 0 {
        None
    } else {
        let before = entries_error(dir, entries.drop_last());
        if before is Some {
            before
        } else {
            parse_error(entry_file(dir, entries.last().0@), entries.last().1@)
        }
    }
}

/// The stems of a directory's entries.
pub open spec fn stems(entries: Seq<(String, String)>) -> Seq<Seq<char>> {
    Seq::new(entries.len(), |i: int| entries[i].0@)
}

/// No stem occurs twice.
pub open spec fn stems_unique(entries: Seq<(String, String)>) -> bool {
    forall|i: int, j: int| 0 <= i < j < entries.len() ==> entries[i].0@ != entries[j].0@
}

/// A member of a JSON object: the key as a JSON string, a colon, the value.
pub open spec fn member(key: Seq<char>, value: Seq<char>) -> Seq<char> {
    spec_json_string(key) + ":"@ + value
}

/// The members of the entries taken in the given order, each entry's stem
/// with its converted text.
pub open spec fn ordered_members(entries: Seq<(String, String)>, order: Seq<usize>) -> Seq<Seq<char>>
    decreases order.len(),
{
    if order.len() == 0 {
        Seq::empty()
    } else {
        let k = order.last() as int;
        ordered_members(entries, order.drop_last()).push(member(entries[k].0@, converted(entries[k].1@)))
    }
}

/// A JSON object of the given members, in compact form.
pub open spec fn object_text(members: Seq<Seq<char>>) -> Seq<char> {
    "{"@ + join(members, ","@) + "}"@
}

/// The object of a directory: each stem with its converted text, stems in
/// sorted order.
pub open spec fn directory_object(entries: Seq<(String, String)>) -> Seq<char> {
    object_text(ordered_members(entries, name_order(stems(entries))))
}

/// The members of the configuration object, in key order: those whose
/// source is given.
pub open spec fn config_members(action_tiers: Option<&str>, economic_nodes: Option<&str>,
    maintainers: Option<Vec<(String, String)>>, repositories: Option<Vec<(String, String)>>) -> Seq<Seq<char>> {
    let s0 = Seq::<Seq<char>>::empty();
    let s1 = match action_tiers {
        Some(t) => s0.push("\"action_tiers\":"@ + converted(t@)),
        None => s0,
    };
    let s2 = match economic_nodes {
        Some(t) => s1.push("\"economic_nodes\":"@ + converted(t@)),
        None => s1,
    };
    let s3 = match maintainers {
        Some(v) => s2.push("\"maintainers\":"@ + directory_object(v@)),
        None => s2,
    };
    match repositories {
        Some(v) => s3.push("\"repositories\":"@ + directory_object(v@)),
        None => s3,
    }
}

/// The configuration object as compact JSON text.
pub open spec fn config_text(action_tiers: Option<&str>, economic_nodes: Option<&str>,
    maintainers: Option<Vec<(String, String)>>, repositories: Option<Vec<(String, String)>>) -> Seq<char> {
    object_text(config_members(action_tiers, economic_nodes, maintainers, repositories))
}

/// Every given source converts.
pub open spec fn sources_convert(action_tiers: Option<&str>, economic_nodes: Option<&str>,
    maintainers: Option<Vec<(String, String)>>, repositories: Option<Vec<(String, String)>>) -> bool {
    &&& action_tiers matches Some(t) ==> converts(t@)
    &&& economic_nodes matches Some(t) ==> converts(t@)
    &&& maintainers matches Some(v) ==> forall|i: int| 0 <= i < v@.len() ==> converts(#[trigger] v@[i].1@)
    &&& repositories matches Some(v) ==> forall|i: int| 0 <= i < v@.len() ==> converts(#[trigger] v@[i].1@)
}

/// The error of the first source, in the order action tiers, economic
/// nodes, maintainers, repositories, that does not convert.
pub open spec fn config_error(action_tiers: Option<&str>, economic_nodes: Option<&str>,
    maintainers: Option<Vec<(String, String)>>, repositories: Option<Vec<(String, String)>>) -> Option<Seq<char>> {
    let a = match action_tiers {
        Some(t) => parse_error("action-tiers.yml"@, t@),
        None => None,
    };
    let e = match economic_nodes {
        Some(t) => parse_error("economic-nodes.yml"@, t@),
        None => None,
    };
    let m = match maintainers {
        Some(v) => entries_error("maintainers"@, v@),
        None => None,
    };
    let r = match repositories {
        Some(v) => entries_error("repos"@, v@),
        None => None,
    };
    if a is Some {
        a
    } else if e is Some {
        e
    } else if m is Some {
        m
    } else {
        r
    }
}

/// A directory has no failing entry exactly when every entry converts.
proof fn lemma_entries_error_none(dir: Seq<char>, entries: Seq<(String, String)>)
    ensures
        entries_error(dir, entries) is None <==> forall|i: int| 0 <= i < entries.len() ==> converts(#[trigger] entries[i].1@),
    decreases entries.len(),
{
    if entries.len() > 0 {
        let p = entries.drop_last();
        lemma_entries_error_none(dir, p);
        if entries_error(dir, entries) is None {
            assert forall|i: int| 0 <= i < entries.len() implies converts(#[trigger] entries[i].1@) by {
                if i < p.len() {
                    assert(entries[i] == p[i]);
                }
            }
        }
        if forall|i: int| 0 <= i < entries.len() ==> converts(#[trigger] entries[i].1@) {
            assert(converts(entries[entries.len() - 1].1@));
            assert forall|i: int| 0 <= i < p.len() implies converts(#[trigger] p[i].1@) by {
                assert(entries[i] == p[i]);
            }
        }
    }
}

/// Once a prefix of the entries has a failing entry, the whole list fails
/// with the same error.
proof fn lemma_entries_error_prefix(dir: Seq<char>, entries: Seq<(String, String)>, k: int)
    requires
        0 <= k <= entries.len(),
        entries_error(dir, entries.take(k)) is Some,
    ensures
        entries_error(dir, entries) == entries_error(dir, entries.take(k)),
    decreases entries.len(),
{
    if k == entries.len() {
        assert(entries.take(k) =~= entries);
    } else {
        let p = entries.drop_last();
        assert(p.take(k) =~= entries.take(k));
        lemma_entries_error_prefix(dir, p, k);
    }
}

/// Converts the YAML text of a file, failing with the file's name and the
/// parser's message.
fn convert_source(file: &str, text: &str) -> (r: Result<String, GovernanceError>)
    ensures
        match parse_error(file@, text@) {
            Some(m) => r matches Err(GovernanceError::ConfigError(e)) && e@ == m,
            None => r matches Ok(j) && j@ == converted(text@),
        },
{
    match yaml_to_json(text) {
        Ok(j) => Ok(j),
        Err(e) => {
            let mut msg = String::from_str("Failed to parse ");
            msg.append(file);
            msg.append(": ");
            msg.append(e.as_str());
            Err(GovernanceError::ConfigError(msg))
        },
    }
}

/// Converts every entry of a directory, in the order given, stopping at the
/// first that fails.
fn convert_entries(dir: &str, entries: &Vec<(String, String)>) -> (r: Result<Vec<String>, GovernanceError>)
    ensures
        match entries_error(dir@, entries@) {
            Some(m) => r matches Err(GovernanceError::ConfigError(e)) && e@ == m,
            None => r matches Ok(js) && js@.len() == entries@.len()
                && forall|i: int| 0 <= i < entries@.len() ==> (#[trigger] js@[i])@ == converted(entries@[i].1@),
        },
{
    let n = entries.len();
    let mut out: Vec<String> = Vec::new();
    let mut i: usize = 0;
    while i < n
        invariant
            n == entries@.len(),
            i <= n,
            entries_error(dir@, entries@.take(i as int)) is None,
            out@.len() == i,
            forall|j: int| 0 <= j < i ==> (#[trigger] out@[j])@ == converted(entries@[j].1@),
        decreases n - i,
    {
        let mut file = String::from_str(dir);
        file.append("/");
        file.append(entries[i].0.as_str());
        file.append(".yml");
        proof {
            let t = entries@.take(i + 1);
            assert(t.drop_last() =~= entries@.take(i as int));
            assert(t.last() == entries@[i as int]);
            assert(file@ == entry_file(dir@, entries@[i as int].0@));
        }
        match convert_source(file.as_str(), entries[i].1.as_str()) {
            Ok(j) => {
                out.push(j);
            },
            Err(e) => {
                proof {
                    lemma_entries_error_prefix(dir@, entries@, i + 1);
                }
                return Err(e);
            },
        }
        i = i + 1;
    }
    proof {
        assert(entries@.take(n as int) =~= entries@);
    }
    Ok(out)
}

/// The object of a directory's entries, given their converted texts:
/// stems in sorted order, each with its text.
fn directory_object_text(entries: &Vec<(String, String)>, texts: &Vec<String>) -> (r: String)
    requires
        texts@.len() == entries@.len(),
        forall|i: int| 0 <= i < entries@.len() ==> (#[trigger] texts@[i])@ == converted(entries@[i].1@),
    ensures
        r@ == directory_object(entries@),
{
    let n = entries.len();
    let mut names: Vec<String> = Vec::new();
    let mut i: usize = 0;
    while i < n
        invariant
            n == entries@.len(),
            i <= n,
            names@.len() == i,
            forall|j: int| 0 <= j < i ==> (#[trigger] names@[j])@ == entries@[j].0@,
        decreases n - i,
    {
        names.push(entries[i].0.clone());
        i = i + 1;
    }
    proof {
        assert(views(names@) =~= stems(entries@));
    }
    let order = sorted_order(names.as_slice());
    let mut members: Vec<String> = Vec::new();
    let mut p: usize = 0;
    while p < n
        invariant
            n == entries@.len(),
            n == texts@.len(),
            forall|i: int| 0 <= i < entries@.len() ==> (#[trigger] texts@[i])@ == converted(entries@[i].1@),
            is_permutation(order@, n as nat),
            p <= n,
            views(members@) == ordered_members(entries@, order@.take(p as int)),
        decreases n - p,
    {
        proof {
            assert(order@.take(p + 1).drop_last() =~= order@.take(p as int));
            assert(order@[p as int] < n);
        }
        let k = order[p];
        let mut m = json_quote(entries[k].0.as_str());
        m.append(":");
        m.append(texts[k].as_str());
        let ghost before = members@;
        members.push(m);
        proof {
            assert(views(members@) =~= views(before).push(members@[members@.len() - 1]@));
        }
        p = p + 1;
    }
    proof {
        assert(order@.take(n as int) =~= order@);
        let nm = stems(entries@);
        assert(is_permutation(order@, nm.len()) && sorted_stable(nm, order@));
        let o2 = name_order(nm);
        assert(is_permutation(o2, nm.len()) && sorted_stable(nm, o2));
        lemma_name_order_unique(nm, order@, o2);
    }
    let mut out = String::from_str("{");
    let body = join_strings(members.as_slice(), ",");
    out.append(body.as_str());
    out.append("}");
    out
}

/// The governance configuration as one compact JSON object, from the texts
/// of the configuration files that exist: `action_tiers` and
/// `economic_nodes` from `action-tiers.yml` and `economic-nodes.yml`, and
/// `maintainers` and `repositories` from the `.yml` files of `maintainers/`
/// and `repos/`, given as (file stem, text) in the order the directory
/// lists them (so no stem occurs twice). Each text is read as YAML; the
/// object has a key for each source given, keys and stems in sorted order.
/// Fails with the first source, in that order, that is not YAML
/// `serde_yaml` reads.
pub fn governance_config(action_tiers: Option<&str>, economic_nodes: Option<&str>,
    maintainers: Option<Vec<(String, String)>>, repositories: Option<Vec<(String, String)>>) -> (r: Result<String, GovernanceError>)
    requires
        maintainers matches Some(v) ==> stems_unique(v@),
        repositories matches Some(v) ==> stems_unique(v@),
    ensures
        r is Ok <==> sources_convert(action_tiers, economic_nodes, maintainers, repositories),
        r matches Ok(c) ==> c@ == config_text(action_tiers, economic_nodes, maintainers, repositories),
        config_error(action_tiers, economic_nodes, maintainers, repositories) matches Some(m)
            ==> r matches Err(GovernanceError::ConfigError(e)) && e@ == m,
{
    proof {
        if maintainers is Some {
            lemma_entries_error_none("maintainers"@, maintainers->0@);
        }
        if repositories is Some {
            lemma_entries_error_none("repos"@, repositories->0@);
        }
    }
    let mut members: Vec<String> = Vec::new();
    let ghost mut spec_members = Seq::<Seq<char>>::empty();
    if let Some(t) = action_tiers {
        let j = match convert_source("action-tiers.yml", t) {
            Ok(j) => j,
            Err(e) => return Err(e),
        };
        let mut m = String::from_str("\"action_tiers\":");
        m.append(j.as_str());
        members.push(m);
    }
    proof {
        assert(views(members@) =~= match action_tiers {
            Some(t) => Seq::<Seq<char>>::empty().push("\"action_tiers\":"@ + converted(t@)),
            None => Seq::<Seq<char>>::empty(),
        });
        spec_members = views(members@);
    }
    if let Some(t) = economic_nodes {
        let j = match convert_source("economic-nodes.yml", t) {
            Ok(j) => j,
            Err(e) => return Err(e),
        };
        let mut m = String::from_str("\"economic_nodes\":");
        m.append(j.as_str());
        members.push(m);
        proof {
            assert(views(members@) =~= spec_members.push("\"economic_nodes\":"@ + converted(t@)));
        }
    }
    proof {
        spec_members = views(members@);
    }
    if let Some(v) = &maintainers {
        let texts = match convert_entries("maintainers", v) {
            Ok(js) => js,
            Err(e) => return Err(e),
        };
        let obj = directory_object_text(v, &texts);
        let mut m = String::from_str("\"maintainers\":");
        m.append(obj.as_str());
        members.push(m);
        proof {
            assert(views(members@) =~= spec_members.push("\"maintainers\":"@ + directory_object(v@)));
        }
    }
    proof {
        spec_members = views(members@);
    }
    if let Some(v) = &repositories {
        let texts = match convert_entries("repos", v) {
            Ok(js) => js,
            Err(e) => return Err(e),
        };
        let obj = directory_object_text(v, &texts);
        let mut m = String::from_str("\"repositories\":");
        m.append(obj.as_str());
        members.push(m);
        proof {
            assert(views(members@) =~= spec_members.push("\"repositories\":"@ + directory_object(v@)));
        }
    }
    proof {
        assert(views(members@) =~= config_members(action_tiers, economic_nodes, maintainers, repositories));
    }
    let mut out = String::from_str("{");
    let body = join_strings(members.as_slice(), ",");
    out.append(body.as_str());
    out.append("}");
    Ok(out)
}

} // verus!
