//! Reading a project's display name out of its manifest: the `name` field of
//! a JSON manifest, the `[package]` name of a TOML manifest (honoring only
//! the first matching section before a different section header), or the
//! first `module` line of a Go module file. Manifests over a fixed safety
//! cap are not parsed; any failure falls back to the directory's own name.

use vstd::prelude::*;
use crate::classify::ArtifactType;
use crate::fstree::{FsTree, FsNodeView, FsNodeKind, FsNodeKindView, node_at, find_node, path_join};
use crate::strutil::{
    str_eq, spec_find_char, find_char, spec_trim, trim, spec_trim_char, trim_matches,
    spec_starts_with, starts_with,
};

verus! {

/// Manifest files larger than this are treated as absent, bounding memory
/// use against corrupt inputs.
pub const MAX_MANIFEST_SIZE: u64 = 1024 * 1024;

// ---------------------------------------------------------------------------
// JSON manifests, through serde_json.
// ---------------------------------------------------------------------------

/// The string value of one field of a JSON document, when the document
/// parses as JSON and holds a string there: a function of the document text
/// and the field name alone.
pub uninterp spec fn json_str_field(content: Seq<char>, field: Seq<char>) -> Option<Seq<char>>;

/// Relies on serde_json's `from_str`, `Value::get` and `Value::as_str`:
/// parsing a document and reading one string field out of it depends on the
/// document text and the field name alone, and fails to a `None` on any
/// malformed input.
#[verifier::external_body]
pub fn extract_json_field(content: &str, field: &str) -> (r: Option<String>)
    ensures
        json_str_field(content@, field@) == match r {
            Some(s) => Some(s@),
            None => None::<Seq<char>>,
        },
{
    let parsed: serde_json::Value = match serde_json::from_str(content) {
        Ok(v) => v,
        Err(_) => return None,
    };
    parsed.get(field).and_then(|v| v.as_str()).map(|s| s.to_string())
}

// ---------------------------------------------------------------------------
// TOML manifests, by line scanning.
// ---------------------------------------------------------------------------

/// One line as `str::lines` yields it: up to the next newline, with a
/// carriage return before the terminator stripped.
pub open spec fn spec_line_at(s: Seq<char>, pos: int, nl: int) -> Seq<char> {
    let raw = s.subrange(pos, nl);
    if nl < s.len() && raw.len() > 0 && raw.last() == '\r' {
        raw.drop_last()
    } else {
        raw
    }
}

/// The value of the first `name` entry inside `[package]`, scanning from
/// `pos`: section headers toggle whether lines count, and the value is
/// stripped of spaces and quotes.
pub open spec fn spec_toml_scan(s: Seq<char>, pos: int, in_package: bool) -> Option<Seq<char>>
    decreases s.len() - pos
    via spec_toml_scan_decreases
{
    if pos < 0 || pos >= s.len() {
        None
    } else {
        let nl = spec_find_char(s, pos, '\n');
        let t = spec_trim(spec_line_at(s, pos, nl));
        let next = nl + 1;
        if t == "[package]"@ {
            if next <= s.len() {
                spec_toml_scan(s, next, true)
            } else {
                None
            }
        } else if t.len() > 0 && t[0] == '[' {
            if next <= s.len() {
                spec_toml_scan(s, next, false)
            } else {
                None
            }
        } else if in_package && spec_starts_with(t, "name"@) && spec_find_char(t, 0, '=')
            < t.len() {
            let eq = spec_find_char(t, 0, '=');
            Some(spec_unquote(spec_trim(t.subrange(eq + 1, t.len() as int))))
        } else {
            if next <= s.len() {
                spec_toml_scan(s, next, in_package)
            } else {
                None
            }
        }
    }
}

#[via_fn]
proof fn spec_toml_scan_decreases(s: Seq<char>, pos: int, in_package: bool) {
    if 0 <= pos < s.len() {
        crate::strutil::lemma_find_char_props(s, pos, '\n');
    }
}

/// Strip all leading and trailing double quotes, then single quotes.
pub open spec fn spec_unquote(v: Seq<char>) -> Seq<char> {
    spec_trim_char(spec_trim_char(v, '"'), '\'')
}

/// The `[package].name` of a TOML manifest, as the decision table uses it.
#[verifier::loop_isolation(false)]
pub fn extract_toml_package_name(content: &str) -> (r: Option<String>)
    ensures
        spec_toml_scan(content@, 0, false) == match r {
            Some(s) => Some(s@),
            None => None::<Seq<char>>,
        },
{
    let n = content.unicode_len();
    let mut pos: usize = 0;
    let mut in_package = false;
    while pos < n
        invariant
            pos <= n,
            spec_toml_scan(content@, 0, false) == spec_toml_scan(content@, pos as int, in_package),
        decreases n - pos,
    {
        let nl = find_char(content, pos, '\n');
        let raw = content.substring_char(pos, nl);
        let raw_len = raw.unicode_len();
        let line = if nl < n && raw_len > 0 && raw.get_char(raw_len - 1) == '\r' {
            let l = raw.substring_char(0, raw_len - 1);
            proof {
                assert(l@ =~= spec_line_at(content@, pos as int, nl as int));
            }
            l
        } else {
            proof {
                assert(raw@ =~= spec_line_at(content@, pos as int, nl as int));
            }
            raw
        };
        let t = trim(line);
        let t_len = t.unicode_len();
        if str_eq(t, "[package]") {
            in_package = true;
        } else if t_len > 0 && t.get_char(0) == '[' {
            in_package = false;
        } else if in_package && starts_with(t, "name") {
            let eq = find_char(t, 0, '=');
            if eq < t_len {
                let after = t.substring_char(eq + 1, t_len);
                let v = trim_matches(trim_matches(trim(after), '"'), '\'');
                return Some(v.to_owned());
            }
        }
        if nl >= n {
            return None;
        }
        pos = nl + 1;
    }
    None
}

// ---------------------------------------------------------------------------
// Go module files.
// ---------------------------------------------------------------------------

/// What the first line of a Go module file names: the trimmed rest of a
/// leading `module ` prefix.
pub open spec fn spec_gomod_name(s: Seq<char>) -> Option<Seq<char>> {
    if s.len() == 0 {
        None
    } else {
        let nl = spec_find_char(s, 0, '\n');
        let line = spec_line_at(s, 0, nl);
        if spec_starts_with(line, "module "@) {
            Some(spec_trim(line.subrange(7, line.len() as int)))
        } else {
            None
        }
    }
}

pub fn extract_gomod_name(content: &str) -> (r: Option<String>)
    ensures
        spec_gomod_name(content@) == match r {
            Some(s) => Some(s@),
            None => None::<Seq<char>>,
        },
{
    let n = content.unicode_len();
    if n == 0 {
        return None;
    }
    let nl = find_char(content, 0, '\n');
    let raw = content.substring_char(0, nl);
    let raw_len = raw.unicode_len();
    let line = if nl < n && raw_len > 0 && raw.get_char(raw_len - 1) == '\r' {
        let l = raw.substring_char(0, raw_len - 1);
        proof {
            assert(l@ =~= spec_line_at(content@, 0, nl as int));
        }
        l
    } else {
        proof {
            assert(raw@ =~= spec_line_at(content@, 0, nl as int));
        }
        raw
    };
    if starts_with(line, "module ") {
        proof {
            reveal_strlit("module ");
        }
        let rest = line.substring_char(7, line.unicode_len());
        Some(trim(rest).to_owned())
    } else {
        None
    }
}

// ---------------------------------------------------------------------------
// From a manifest path to a name.
// ---------------------------------------------------------------------------

/// The name a manifest at `mpath` yields: present, readable, under the size
/// cap, and of a known kind — else nothing.
pub open spec fn spec_manifest_name(nodes: Seq<FsNodeView>, mpath: Seq<Seq<char>>) -> Option<
    Seq<char>,
> {
    match node_at(nodes, mpath) {
        Some(n) => match n.kind {
            FsNodeKindView::File { size, content: Some(c), .. } => {
                if size > MAX_MANIFEST_SIZE || mpath.len() == 0 {
                    None
                } else {
                    let fname = mpath.last();
                    if fname == "package.json"@ {
                        json_str_field(c, "name"@)
                    } else if fname == "Cargo.toml"@ {
                        spec_toml_scan(c, 0, false)
                    } else if fname == "go.mod"@ {
                        spec_gomod_name(c)
                    } else {
                        None
                    }
                }
            },
            _ => None,
        },
        None => None,
    }
}

pub fn read_project_name_from_manifest(tree: &FsTree, mpath: &Vec<String>) -> (r: Option<String>)
    ensures
        spec_manifest_name(tree@.nodes, mpath.deep_view()) == match r {
            Some(s) => Some(s@),
            None => None::<Seq<char>>,
        },
{
    let node = match find_node(tree, mpath) {
        Some(n) => n,
        None => {
            return None;
        },
    };
    match &node.kind {
        FsNodeKind::File { size, content: Some(c), .. } => {
            if *size > MAX_MANIFEST_SIZE || mpath.len() == 0 {
                return None;
            }
            let fname = &mpath[mpath.len() - 1];
            assert(fname@ == mpath.deep_view().last());
            if str_eq(fname.as_str(), "package.json") {
                extract_json_field(c.as_str(), "name")
            } else if str_eq(fname.as_str(), "Cargo.toml") {
                extract_toml_package_name(c.as_str())
            } else if str_eq(fname.as_str(), "go.mod") {
                extract_gomod_name(c.as_str())
            } else {
                None
            }
        },
        _ => None,
    }
}

// ---------------------------------------------------------------------------
// The display name of a finding.
// ---------------------------------------------------------------------------

/// The containing directory's own basename, the fallback name.
pub open spec fn spec_basename_or_unknown(p: Seq<Seq<char>>) -> Seq<char> {
    if p.len() > 0 && p.last().len() > 0 {
        p.last()
    } else {
        "unknown"@
    }
}

/// What a finding is called: the manifest's name when the artifact has an
/// associated manifest and it yields one, else the project directory's own
/// basename.
pub open spec fn spec_project_name(
    nodes: Seq<FsNodeView>,
    project_root: Seq<Seq<char>>,
    art: crate::classify::ArtifactTypeView,
) -> Seq<char> {
    match art.manifest_file {
        Some(m) => match spec_manifest_name(nodes, project_root.push(m)) {
            Some(n) => n,
            None => spec_basename_or_unknown(project_root),
        },
        None => spec_basename_or_unknown(project_root),
    }
}

fn basename_or_unknown(project_root: &Vec<String>) -> (r: String)
    ensures
        r@ == spec_basename_or_unknown(project_root.deep_view()),
{
    if project_root.len() > 0 {
        let last = &project_root[project_root.len() - 1];
        assert(last@ == project_root.deep_view().last());
        if !last.as_str().is_empty() {
            return last.clone();
        }
    }
    String::from_str("unknown")
}

/// Failure to parse, or absence of a name, falls back to the containing
/// directory's own basename — never a diagnostic.
pub proof fn lemma_name_falls_back(
    nodes: Seq<FsNodeView>,
    project_root: Seq<Seq<char>>,
    art: crate::classify::ArtifactTypeView,
)
    requires
        match art.manifest_file {
            Some(m) => spec_manifest_name(nodes, project_root.push(m)) is None,
            None => true,
        },
    ensures
        spec_project_name(nodes, project_root, art) == spec_basename_or_unknown(project_root),
{
}

pub fn determine_project_name(
    tree: &FsTree,
    project_root: &Vec<String>,
    artifact: &ArtifactType,
) -> (r: String)
    ensures
        r@ == spec_project_name(tree@.nodes, project_root.deep_view(), artifact@),
{
    match &artifact.manifest_file {
        Some(m) => {
            let mpath = path_join(project_root, m.as_str());
            match read_project_name_from_manifest(tree, &mpath) {
                Some(n) => n,
                None => basename_or_unknown(project_root),
            }
        },
        None => basename_or_unknown(project_root),
    }
}

} // verus!
