//! Resource names of the backend (`projects/p/issues/7`, ...) and version
//! markers (`p#7`): parsing and formatting.

use vstd::prelude::*;
use crate::error::AppError;
use crate::text::{
    decimal_spec, format_u32, lemma_decimal_digits, lemma_parse_decimal, lemma_split_append,
    lemma_split_without_sep, parse_u32, parse_u32_spec, split_on, split_spec, is_digit,
};

verus! {

/// The field of a resource name that a parse error is about.
#[derive(Debug, Clone, Copy, PartialEq, Eq)]
pub enum NamePart {
    Project,
    Instance,
    Database,
    Issue,
    Changelog,
    Sheet,
    Plan,
    Revision,
}

/// Why a resource name could not be read.
#[derive(Debug, Clone, Copy, PartialEq, Eq)]
pub enum NameError {
    /// The name has too few `/`-separated segments to hold the field.
    Missing(NamePart),
    /// The segment that holds the number is not a `u32`.
    InvalidNumber(NamePart),
}

pub open spec fn part_noun(p: NamePart) -> Seq<char> {
    match p {
        NamePart::Project => "project name"@,
        NamePart::Instance => "instance name"@,
        NamePart::Database => "database name"@,
        NamePart::Issue => "issue number"@,
        NamePart::Changelog => "changelog number"@,
        NamePart::Sheet => "sheet number"@,
        NamePart::Plan => "plan number"@,
        NamePart::Revision => "revision number"@,
    }
}

pub open spec fn name_error_text(e: NameError) -> Seq<char> {
    match e {
        NameError::Missing(p) => "cannot find "@ + part_noun(p),
        NameError::InvalidNumber(p) => "invalid "@ + part_noun(p),
    }
}

impl NamePart {
    fn noun(&self) -> (r: &'static str)
        ensures
            r@ == part_noun(*self),
    {
        match self {
            NamePart::Project => "project name",
            NamePart::Instance => "instance name",
            NamePart::Database => "database name",
            NamePart::Issue => "issue number",
            NamePart::Changelog => "changelog number",
            NamePart::Sheet => "sheet number",
            NamePart::Plan => "plan number",
            NamePart::Revision => "revision number",
        }
    }
}

impl NameError {
    /// The error in words, e.g. `cannot find issue number`.
    pub fn message(&self) -> (r: String)
        ensures
            r@ == name_error_text(*self),
    {
        match self {
            NameError::Missing(p) => "cannot find ".to_string().concat(p.noun()),
            NameError::InvalidNumber(p) => "invalid ".to_string().concat(p.noun()),
        }
    }
}

/// Reading `<kind>/<name>/<kind>/<number>`: the name and the number.
pub open spec fn two_field_spec(raw: Seq<char>, num: NamePart) -> Result<(Seq<char>, u32), NameError> {
    let parts = split_spec(raw, '/');
    if parts.len() < 2 {
        Err(NameError::Missing(NamePart::Project))
    } else if parts.len() < 4 {
        Err(NameError::Missing(num))
    } else {
        match parse_u32_spec(parts[3]) {
            Some(n) => Ok((parts[1], n)),
            None => Err(NameError::InvalidNumber(num)),
        }
    }
}

/// Reading `instances/<i>/databases/<d>/<kind>/<number>`.
pub open spec fn three_field_spec(raw: Seq<char>, num: NamePart) -> Result<(Seq<char>, Seq<char>, u32), NameError> {
    let parts = split_spec(raw, '/');
    if parts.len() < 2 {
        Err(NameError::Missing(NamePart::Instance))
    } else if parts.len() < 4 {
        Err(NameError::Missing(NamePart::Database))
    } else if parts.len() < 6 {
        Err(NameError::Missing(num))
    } else {
        match parse_u32_spec(parts[5]) {
            Some(n) => Ok((parts[1], parts[3], n)),
            None => Err(NameError::InvalidNumber(num)),
        }
    }
}

fn parse_two_fields(raw: &str, num: NamePart) -> (r: Result<(String, u32), NameError>)
    ensures
        match (r, two_field_spec(raw@, num)) {
            (Ok((name, n)), Ok((sname, sn))) => name@ == sname && n == sn,
            (Err(e), Err(se)) => e == se,
            _ => false,
        },
{
    let parts = split_on(raw, '/');
    if parts.len() < 2 {
        return Err(NameError::Missing(NamePart::Project));
    }
    if parts.len() < 4 {
        return Err(NameError::Missing(num));
    }
    match parse_u32(parts[3].as_str()) {
        Some(n) => Ok((parts[1].clone(), n)),
        None => Err(NameError::InvalidNumber(num)),
    }
}

fn parse_three_fields(raw: &str, num: NamePart) -> (r: Result<(String, String, u32), NameError>)
    ensures
        match (r, three_field_spec(raw@, num)) {
            (Ok((a, b, n)), Ok((sa, sb, sn))) => a@ == sa && b@ == sb && n == sn,
            (Err(e), Err(se)) => e == se,
            _ => false,
        },
{
    let parts = split_on(raw, '/');
    if parts.len() < 2 {
        return Err(NameError::Missing(NamePart::Instance));
    }
    if parts.len() < 4 {
        return Err(NameError::Missing(NamePart::Database));
    }
    if parts.len() < 6 {
        return Err(NameError::Missing(num));
    }
    match parse_u32(parts[5].as_str()) {
        Some(n) => Ok((parts[1].clone(), parts[3].clone(), n)),
        None => Err(NameError::InvalidNumber(num)),
    }
}


pub open spec fn project_text(kind: Seq<char>, project: Seq<char>, n: u32) -> Seq<char> {
    "projects/"@ + project + kind + decimal_spec(n as nat)
}

fn project_string(kind: &str, project: &str, n: u32) -> (r: String)
    ensures
        r@ == project_text(kind@, project@, n),
{
    let mut s = "projects/".to_string();
    s.append(project);
    s.append(kind);
    s.append(format_u32(n).as_str());
    s
}

/// `projects/<project>/issues/<number>`: an issue of the backend.
#[derive(Debug, Clone, PartialEq, Eq)]
pub struct IssueName {
    pub project: String,
    pub number: u32,
}

impl IssueName {
    /// A copy of the name.
    pub fn copy(&self) -> (r: IssueName)
        ensures
            r == *self,
    {
        IssueName { project: self.project.clone(), number: self.number }
    }

    /// Reads an issue name; the second segment is the project, the fourth the number.
    pub fn parse(raw: &str) -> (r: Result<IssueName, NameError>)
        ensures
            match (r, two_field_spec(raw@, NamePart::Issue)) {
                (Ok(v), Ok((p, n))) => v.project@ == p && v.number == n,
                (Err(e), Err(se)) => e == se,
                _ => false,
            },
    {
        match parse_two_fields(raw, NamePart::Issue) {
            Ok((project, number)) => Ok(IssueName { project, number }),
            Err(e) => Err(e),
        }
    }

    /// The name as the backend writes it.
    pub fn to_string(&self) -> (r: String)
        ensures
            r@ == project_text("/issues/"@, self.project@, self.number),
    {
        project_string("/issues/", self.project.as_str(), self.number)
    }
}

/// `projects/<project>/sheets/<number>`: a stored SQL statement.
#[derive(Debug, Clone, PartialEq, Eq)]
pub struct SheetName {
    pub project_name: String,
    pub number: u32,
}

impl SheetName {
    /// A copy of the name.
    pub fn copy(&self) -> (r: SheetName)
        ensures
            r == *self,
    {
        SheetName { project_name: self.project_name.clone(), number: self.number }
    }

    /// Reads a sheet name; the second segment is the project, the fourth the number.
    pub fn parse(raw: &str) -> (r: Result<SheetName, NameError>)
        ensures
            match (r, two_field_spec(raw@, NamePart::Sheet)) {
                (Ok(v), Ok((p, n))) => v.project_name@ == p && v.number == n,
                (Err(e), Err(se)) => e == se,
                _ => false,
            },
    {
        match parse_two_fields(raw, NamePart::Sheet) {
            Ok((project_name, number)) => Ok(SheetName { project_name, number }),
            Err(e) => Err(e),
        }
    }

    /// The name as the backend writes it.
    pub fn to_string(&self) -> (r: String)
        ensures
            r@ == project_text("/sheets/"@, self.project_name@, self.number),
    {
        project_string("/sheets/", self.project_name.as_str(), self.number)
    }
}

/// `projects/<project>/plans/<number>`: an execution plan.
#[derive(Debug, Clone, PartialEq, Eq)]
pub struct PlanName {
    pub project_name: String,
    pub number: u32,
}

impl PlanName {
    /// A copy of the name.
    pub fn copy(&self) -> (r: PlanName)
        ensures
            r == *self,
    {
        PlanName { project_name: self.project_name.clone(), number: self.number }
    }

    /// Reads a plan name; the second segment is the project, the fourth the number.
    pub fn parse(raw: &str) -> (r: Result<PlanName, NameError>)
        ensures
            match (r, two_field_spec(raw@, NamePart::Plan)) {
                (Ok(v), Ok((p, n))) => v.project_name@ == p && v.number == n,
                (Err(e), Err(se)) => e == se,
                _ => false,
            },
    {
        match parse_two_fields(raw, NamePart::Plan) {
            Ok((project_name, number)) => Ok(PlanName { project_name, number }),
            Err(e) => Err(e),
        }
    }

    /// The name as the backend writes it.
    pub fn to_string(&self) -> (r: String)
        ensures
            r@ == project_text("/plans/"@, self.project_name@, self.number),
    {
        project_string("/plans/", self.project_name.as_str(), self.number)
    }
}

/// `instances/<instance>/databases/<database>/changelogs/<number>`.
#[derive(Debug, Clone, PartialEq, Eq)]
pub struct ChangeLogName {
    pub instance: String,
    pub database: String,
    pub number: u32,
}

impl ChangeLogName {
    /// Reads a changelog name from its second, fourth and sixth segments.
    pub fn parse(raw: &str) -> (r: Result<ChangeLogName, NameError>)
        ensures
            match (r, three_field_spec(raw@, NamePart::Changelog)) {
                (Ok(v), Ok((i, d, n))) => v.instance@ == i && v.database@ == d && v.number == n,
                (Err(e), Err(se)) => e == se,
                _ => false,
            },
    {
        match parse_three_fields(raw, NamePart::Changelog) {
            Ok((instance, database, number)) => Ok(ChangeLogName { instance, database, number }),
            Err(e) => Err(e),
        }
    }
}

/// `instances/<instance>/databases/<database>/revisions/<number>`.
#[derive(Debug, Clone, PartialEq, Eq)]
pub struct RevisionName {
    pub instance: String,
    pub database: String,
    pub number: u32,
}

pub open spec fn revision_name_text(instance: Seq<char>, database: Seq<char>, n: u32) -> Seq<char> {
    "instances/"@ + instance + "/databases/"@ + database + "/revisions/"@ + decimal_spec(n as nat)
}

impl RevisionName {
    /// Reads a revision name from its second, fourth and sixth segments.
    pub fn parse(raw: &str) -> (r: Result<RevisionName, NameError>)
        ensures
            match (r, three_field_spec(raw@, NamePart::Revision)) {
                (Ok(v), Ok((i, d, n))) => v.instance@ == i && v.database@ == d && v.number == n,
                (Err(e), Err(se)) => e == se,
                _ => false,
            },
    {
        match parse_three_fields(raw, NamePart::Revision) {
            Ok((instance, database, number)) => Ok(RevisionName { instance, database, number }),
            Err(e) => Err(e),
        }
    }

    /// The name as the backend writes it.
    pub fn to_string(&self) -> (r: String)
        ensures
            r@ == revision_name_text(self.instance@, self.database@, self.number),
    {
        let mut s = "instances/".to_string();
        s.append(self.instance.as_str());
        s.append("/databases/");
        s.append(self.database.as_str());
        s.append("/revisions/");
        s.append(format_u32(self.number).as_str());
        s
    }
}

/// A version marker `<project>#<number>`: the checkpoint of a target database.
#[derive(Debug, Clone, PartialEq, Eq, PartialOrd, Ord)]
pub struct RevisionVersion {
    pub project_name: String,
    pub number: u32,
}

/// The position of the last `sep` in `s`, or -1 when there is none.
pub open spec fn last_index_of(s: Seq<char>, sep: char) -> int
    decreases s.len(),
{
    if s.len() == 0 {
        -1
    } else if s.last() == sep {
        s.len() - 1
    } else {
        last_index_of(s.drop_last(), sep)
    }
}

/// What a marker text denotes: the project is everything before the last
/// `#`, and the text after it must be a `u32`.
pub open spec fn marker_spec(raw: Seq<char>) -> Option<(Seq<char>, u32)> {
    let i = last_index_of(raw, '#');
    if i < 0 {
        None
    } else {
        match parse_u32_spec(raw.subrange(i + 1, raw.len() as int)) {
            Some(n) => Some((raw.take(i), n)),
            None => None,
        }
    }
}

/// After a separator, a piece without separators leaves the last one in place.
proof fn lemma_last_index_append(a: Seq<char>, b: Seq<char>, sep: char)
    requires
        !b.contains(sep),
    ensures
        last_index_of(a.push(sep) + b, sep) == a.len(),
    decreases b.len(),
{
    if b.len() == 0 {
        assert(a.push(sep) + b =~= a.push(sep));
    } else {
        let p = b.drop_last();
        assert forall|i: int| 0 <= i < p.len() implies p[i] != sep by {
            assert(b[i] == p[i]);
        }
        lemma_last_index_append(a, p, sep);
        assert(b[b.len() - 1] == b.last());
        assert((a.push(sep) + b).drop_last() =~= a.push(sep) + p);
    }
}

pub open spec fn marker_text(project: Seq<char>, n: u32) -> Seq<char> {
    project + "#"@ + decimal_spec(n as nat)
}

impl RevisionVersion {
    /// Reads a marker `<project>#<number>`; the project may itself hold `#`.
    pub fn new(version: String) -> (r: Result<RevisionVersion, AppError>)
        ensures
            match r {
                Ok(v) => marker_spec(version@) == Some((v.project_name@, v.number)),
                Err(AppError::InvalidRevisionVersion(msg)) => {
                    &&& marker_spec(version@) is None
                    &&& last_index_of(version@, '#') < 0 ==> msg@ == "Invalid revision version: "@ + version@
                    &&& last_index_of(version@, '#') >= 0 ==> msg@ == "Invalid issue number: "@ + version@
                },
                Err(_) => false,
            },
    {
        let s = version.as_str();
        let n = s.unicode_len();
        let mut last: Option<usize> = None;
        let mut i: usize = 0;
        while i < n
            invariant
                n == s@.len(),
                i <= n,
                match last {
                    Some(k) => k < i && last_index_of(s@.take(i as int), '#') == k,
                    None => last_index_of(s@.take(i as int), '#') == -1,
                },
            decreases n - i,
        {
            assert(s@.take(i as int + 1).drop_last() =~= s@.take(i as int));
            if s.get_char(i) == '#' {
                last = Some(i);
            }
            i = i + 1;
        }
        assert(s@.take(n as int) =~= s@);
        match last {
            None => Err(AppError::InvalidRevisionVersion(
                "Invalid revision version: ".to_string().concat(s),
            )),
            Some(k) => match parse_u32(s.substring_char(k + 1, n)) {
                Some(number) => Ok(RevisionVersion { project_name: s.substring_char(0, k).to_string(), number }),
                None => Err(AppError::InvalidRevisionVersion(
                    "Invalid issue number: ".to_string().concat(s),
                )),
            },
        }
    }

    /// The marker text `<project>#<number>`.
    pub fn to_string(&self) -> (r: String)
        ensures
            r@ == marker_text(self.project_name@, self.number),
    {
        let mut s = self.project_name.clone();
        s.append("#");
        s.append(format_u32(self.number).as_str());
        s
    }
}

/// Formatting a marker and reading it back gives the same project and number,
/// for every marker.
pub proof fn lemma_marker_round_trip(project: Seq<char>, number: u32)
    ensures
        marker_spec(marker_text(project, number)) == Some((project, number)),
{
    reveal_strlit("#");
    let digits = decimal_spec(number as nat);
    lemma_decimal_has_no_sep(number as nat, '#');
    let text = marker_text(project, number);
    assert(text =~= project.push('#') + digits);
    lemma_last_index_append(project, digits, '#');
    assert(text.take(project.len() as int) =~= project);
    assert(text.subrange(project.len() as int + 1, text.len() as int) =~= digits);
    lemma_parse_decimal(number);
}


proof fn lemma_decimal_has_no_sep(n: nat, sep: char)
    requires
        !is_digit(sep),
    ensures
        !decimal_spec(n).contains(sep),
{
    lemma_decimal_digits(n);
    let d = decimal_spec(n);
    if d.contains(sep) {
        let i = choose|i: int| 0 <= i < d.len() && d[i] == sep;
        assert(is_digit(d[i]));
    }
}

/// Writing a project-scoped name (`projects/<project>/<word>/<number>`) and
/// reading it back gives the project and the number, for every project and
/// word without `/`.
pub proof fn lemma_project_name_round_trip(word: Seq<char>, project: Seq<char>, n: u32, num: NamePart)
    requires
        !word.contains('/'),
        !project.contains('/'),
    ensures
        two_field_spec(project_text(seq!['/'] + word + seq!['/'], project, n), num) == Ok::<(Seq<char>, u32), NameError>((project, n)),
{
    reveal_strlit("projects/");
    let w = seq!['p', 'r', 'o', 'j', 'e', 'c', 't', 's'];
    let d = decimal_spec(n as nat);
    assert(!w.contains('/')) by {
        if w.contains('/') {
            let i = choose|i: int| 0 <= i < w.len() && w[i] == '/';
            assert(w[i] != '/');
        }
    }
    lemma_decimal_has_no_sep(n as nat, '/');
    let a1 = w.push('/') + project;
    let a2 = a1.push('/') + word;
    let a3 = a2.push('/') + d;
    assert(project_text(seq!['/'] + word + seq!['/'], project, n) =~= a3);
    lemma_split_without_sep(w, '/');
    lemma_split_append(w, project, '/');
    lemma_split_append(a1, word, '/');
    lemma_split_append(a2, d, '/');
    assert(split_spec(a3, '/') =~= seq![w, project, word, d]);
    lemma_parse_decimal(n);
}

} // verus!
