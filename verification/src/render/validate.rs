//! Three passes from YAML bytes to a resume.
//!
//! The bytes are parsed into a JSON value; the value is validated against the
//! resume schema, and the first violation is reported with the path to it; only
//! a value that passed is read into a [`Resume`]. All three passes fail with the
//! same kind of diagnostic.

use vstd::prelude::*;
use serde_json::Value;
use crate::decode;
use crate::decode::{Decode, Problem};
use crate::domain::{Resume, ResumeYaml};
use crate::error::YamlDiag;
use crate::json;
use crate::json::Tree;
use crate::schema;
use crate::schema::{KindModel, Violation, ViolationKind, ViolationModel};
use crate::text;

verus! {

// ---------------------------------------------------------------------------
// YAML
// ---------------------------------------------------------------------------

/// A YAML document that could not be parsed.
pub struct YamlFailure {
    pub message: String,
    pub line: Option<usize>,
    pub column: Option<usize>,
}

/// A YAML failure as plain values.
#[verifier::ext_equal]
pub struct YamlFailureModel {
    pub message: Seq<char>,
    pub line: Option<usize>,
    pub column: Option<usize>,
}

impl View for YamlFailure {
    type V = YamlFailureModel;

    open spec fn view(&self) -> YamlFailureModel {
        YamlFailureModel { message: self.message@, line: self.line, column: self.column }
    }
}

/// What `serde_yaml_ng::from_slice` makes of a document: the value, or the
/// failure.
pub uninterp spec fn yaml_parsed(bytes: Seq<u8>) -> Result<Tree, YamlFailureModel>;

/// `serde_yaml_ng::from_slice` into a JSON value, with the message and the
/// position of its error. The result depends on the bytes alone.
#[verifier::external_body]
fn parse_yaml(bytes: &[u8]) -> (r: Result<Value, YamlFailure>)
    ensures
        match r {
            Ok(v) => yaml_parsed(bytes@) == Ok::<Tree, YamlFailureModel>(json::json_tree(v)),
            Err(f) => yaml_parsed(bytes@) == Err::<Tree, YamlFailureModel>(f@),
        },
{
    serde_yaml_ng::from_slice::<Value>(bytes).map_err(|e| YamlFailure {
        message: e.to_string(),
        line: e.location().map(|l| l.line()),
        column: e.location().map(|l| l.column()),
    })
}

// ---------------------------------------------------------------------------
// JSON pointers
// ---------------------------------------------------------------------------

/// `s` without its leading slashes.
pub open spec fn without_leading_slashes(s: Seq<char>) -> Seq<char>
    decreases s.len(),
{
    if s.len() > 0 && s.first() == '/' {
        without_leading_slashes(s.drop_first())
    } else {
        s
    }
}

/// `s` with every `~` that `mark` follows, and that mark, replaced by `by`.
pub open spec fn replaced(s: Seq<char>, mark: char, by: char) -> Seq<char>
    decreases s.len(),
{
    if s.len() == 0 {
        Seq::empty()
    } else if s.len() >= 2 && s[0] == '~' && s[1] == mark {
        seq![by] + replaced(s.skip(2), mark, by)
    } else {
        seq![s[0]] + replaced(s.skip(1), mark, by)
    }
}

/// A pointer segment as the key it stands for: `~1` is a slash, `~0` a tilde.
pub open spec fn unescaped(s: Seq<char>) -> Seq<char> {
    replaced(replaced(s, '1', '/'), '0', '~')
}

/// A list index: one or more digits.
pub open spec fn is_index(s: Seq<char>) -> bool {
    s.len() > 0 && forall|i: int| 0 <= i < s.len() ==> text::ascii_digit(#[trigger] s[i])
}

/// Keys and indices as one path: indices in brackets, keys behind dots.
pub open spec fn dotted(segs: Seq<Seq<char>>) -> Seq<char>
    decreases segs.len(),
{
    if segs.len() == 0 {
        Seq::empty()
    } else {
        let before = dotted(segs.drop_last());
        let key = unescaped(segs.last());
        if is_index(key) {
            before + "["@ + key + "]"@
        } else if before.len() == 0 {
            key
        } else {
            before + "."@ + key
        }
    }
}

/// A JSON pointer in dotted form.
pub open spec fn dotted_pointer(pointer: Seq<char>) -> Seq<char> {
    dotted(text::segments(without_leading_slashes(pointer)))
}

fn replace_mark(s: &Vec<char>, mark: char, by: char) -> (r: Vec<char>)
    ensures
        r@ == replaced(s@, mark, by),
{
    let mut out: Vec<char> = Vec::new();
    let mut i: usize = 0;
    assert(s@.skip(0) =~= s@);
    assert(out@ + replaced(s@, mark, by) =~= replaced(s@, mark, by));
    while i < s.len()
        invariant
            i <= s@.len(),
            replaced(s@, mark, by) == out@ + replaced(s@.skip(i as int), mark, by),
        decreases s@.len() - i,
    {
        let ghost rest = s@.skip(i as int);
        let ghost before = out@;
        if s.len() - i >= 2 && s[i] == '~' && s[i + 1] == mark {
            out.push(by);
            assert(rest.skip(2) =~= s@.skip(i + 2));
            assert(before + (seq![by] + replaced(rest.skip(2), mark, by)) =~= out@ + replaced(
                rest.skip(2),
                mark,
                by,
            ));
            i += 2;
        } else {
            out.push(s[i]);
            assert(rest.skip(1) =~= s@.skip(i + 1));
            assert(before + (seq![rest[0]] + replaced(rest.skip(1), mark, by)) =~= out@ + replaced(
                rest.skip(1),
                mark,
                by,
            ));
            i += 1;
        }
    }
    assert(s@.skip(i as int).len() == 0);
    assert(out@ + replaced(s@.skip(i as int), mark, by) =~= out@);
    out
}

fn all_digits(s: &Vec<char>) -> (r: bool)
    ensures
        r == is_index(s@),
{
    if s.len() == 0 {
        return false;
    }
    for i in 0..s.len()
        invariant
            forall|k: int| 0 <= k < i ==> text::ascii_digit(#[trigger] s@[k]),
    {
        let c = s[i];
        if !('0' <= c && c <= '9') {
            assert(!text::ascii_digit(s@[i as int]));
            return false;
        }
    }
    true
}

/// Turns a JSON pointer such as `/cv/work_experience/1/start_date` into the
/// dotted form `cv.work_experience[1].start_date`.
pub fn json_pointer_to_dotted(pointer: &str) -> (r: String)
    ensures
        r@ == dotted_pointer(pointer@),
{
    let chars = text::chars_of(pointer);
    let mut from: usize = 0;
    assert(chars@.skip(0) =~= chars@);
    while from < chars.len() && chars[from] == '/'
        invariant
            from <= chars@.len(),
            without_leading_slashes(chars@) == without_leading_slashes(chars@.skip(from as int)),
        decreases chars@.len() - from,
    {
        assert(chars@.skip(from as int).drop_first() =~= chars@.skip(from + 1));
        from += 1;
    }
    let segs = text::split_segments(&chars, from);
    let ghost all = text::rows(segs@);
    let mut out: String = String::new();
    assert(out@ =~= dotted(all.take(0)));
    for i in 0..segs.len()
        invariant
            all == text::rows(segs@),
            out@ == dotted(all.take(i as int)),
    {
        assert(all.take(i + 1).drop_last() =~= all.take(i as int));
        let slashes = replace_mark(&segs[i], '1', '/');
        let key = replace_mark(&slashes, '0', '~');
        let word = text::string_of(&key);
        if all_digits(&key) {
            out.push_str("[");
            out.push_str(word.as_str());
            out.push_str("]");
        } else {
            if !out.as_str().is_empty() {
                out.push_str(".");
            }
            out.push_str(word.as_str());
        }
        assert(out@ =~= dotted(all.take(i + 1)));
    }
    assert(all.take(segs@.len() as int) =~= all);
    out
}

// ---------------------------------------------------------------------------
// Diagnostics
// ---------------------------------------------------------------------------

/// A diagnostic as plain values.
#[verifier::ext_equal]
pub struct DiagModel {
    pub path: Option<Seq<char>>,
    pub reason: Seq<char>,
    pub line: Option<usize>,
    pub column: Option<usize>,
}

impl View for YamlDiag {
    type V = DiagModel;

    open spec fn view(&self) -> DiagModel {
        DiagModel {
            path: match self.path {
                Some(p) => Some(p@),
                None => None,
            },
            reason: self.reason@,
            line: self.line,
            column: self.column,
        }
    }
}

/// A path, where it is not empty.
pub open spec fn optional_path(path: Seq<char>) -> Option<Seq<char>> {
    if path.len() == 0 {
        None
    } else {
        Some(path)
    }
}

/// A diagnostic about the contents of a document: it has no position.
pub open spec fn structural_diag(path: Option<Seq<char>>, reason: Seq<char>) -> DiagModel {
    DiagModel { path, reason, line: None, column: None }
}

/// The diagnostic for a document that does not parse.
pub open spec fn syntax_diag(f: YamlFailureModel) -> DiagModel {
    DiagModel {
        path: None,
        reason: "invalid YAML: "@ + f.message,
        line: f.line,
        column: f.column,
    }
}

/// The text of a value that is a string, the empty text of any other.
pub open spec fn text_or_empty(t: Tree) -> Seq<char> {
    match t {
        Tree::Text(s) => s,
        _ => Seq::empty(),
    }
}

/// The diagnostic for a violation. A missing member is reported at its own path,
/// unknown members are listed, and anything else is reported in the validator's
/// words.
pub open spec fn violation_diag(v: ViolationModel) -> DiagModel {
    let base = dotted_pointer(v.instance_path);
    match v.kind {
        KindModel::Required(property) => {
            let prop = text_or_empty(property);
            structural_diag(
                Some(decode::member_path(base, prop)),
                "`"@ + prop + "` is a required property"@,
            )
        },
        KindModel::AdditionalProperties(unexpected) => structural_diag(
            optional_path(base),
            "unexpected additional properties: "@ + text::joined(unexpected, ", "@),
        ),
        KindModel::Other => structural_diag(optional_path(base), v.message),
    }
}

/// The diagnostic for a value that cannot be read into a resume. The path of the
/// document itself is a dot.
pub open spec fn problem_diag(p: Problem) -> DiagModel {
    structural_diag(
        Some(
            if p.path.len() == 0 {
                "."@
            } else {
                p.path
            },
        ),
        p.reason,
    )
}

fn option_path(path: String) -> (r: Option<String>)
    ensures
        match r {
            Some(p) => optional_path(path@) == Some(p@),
            None => optional_path(path@) is None,
        },
{
    if path.as_str().is_empty() {
        None
    } else {
        Some(path)
    }
}

/// Turns a violation into a diagnostic.
pub fn violation_to_diag(v: &Violation) -> (r: YamlDiag)
    ensures
        r@ == violation_diag(v@),
{
    let base = json_pointer_to_dotted(v.instance_path.as_str());
    match &v.kind {
        ViolationKind::Required(property) => {
            let prop = match json::as_text(property) {
                Some(s) => s.to_string(),
                None => String::new(),
            };
            let full = if base.as_str().is_empty() {
                prop.clone()
            } else {
                text::concat3(base.as_str(), ".", prop.as_str())
            };
            let reason = text::concat3("`", prop.as_str(), "` is a required property");
            assert(prop@ =~= text_or_empty(json::json_tree(*property)));
            YamlDiag { path: Some(full), reason, line: None, column: None }
        },
        ViolationKind::AdditionalProperties(unexpected) => {
            let listed = text::join(unexpected, ", ");
            let reason = text::concat2("unexpected additional properties: ", listed.as_str());
            YamlDiag { path: option_path(base), reason, line: None, column: None }
        },
        ViolationKind::Other => {
            let reason = v.message.clone();
            YamlDiag { path: option_path(base), reason, line: None, column: None }
        },
    }
}

// ---------------------------------------------------------------------------
// The passes
// ---------------------------------------------------------------------------

/// The diagnostic of the second pass, where it fails. A schema of the tool that
/// does not compile is reported as such.
pub open spec fn schema_diag(
    verdict: Result<Option<ViolationModel>, Seq<char>>,
) -> Option<DiagModel> {
    match verdict {
        Ok(None) => None,
        Ok(Some(v)) => Some(violation_diag(v)),
        Err(e) => Some(structural_diag(None, "resume schema: "@ + e)),
    }
}

/// The diagnostic of a document whose parsed value and whose verdict are known,
/// where it fails.
pub open spec fn value_diag(
    t: Tree,
    verdict: Result<Option<ViolationModel>, Seq<char>>,
) -> Option<DiagModel> {
    match schema_diag(verdict) {
        Some(d) => Some(d),
        None => match ResumeYaml::problem(t, Seq::empty()) {
            Some(p) => Some(problem_diag(p)),
            None => None,
        },
    }
}

/// The diagnostic of a document, where it fails.
pub open spec fn document_diag(bytes: Seq<u8>) -> Option<DiagModel> {
    match yaml_parsed(bytes) {
        Err(f) => Some(syntax_diag(f)),
        Ok(t) => match schema::resume_schema() {
            Err(e) => Some(structural_diag(None, "resume schema: "@ + e)),
            Ok(s) => value_diag(t, schema::schema_verdict(s, t)),
        },
    }
}

/// `resume` is what the document with the value `t` says.
pub open spec fn resume_of(t: Tree, resume: Resume) -> bool {
    ResumeYaml::decodes(t, ResumeYaml { cv: resume })
}

/// The second and the third pass: the verdict of the schema on a value, and the
/// resume that the value holds.
pub fn read_validated(value: &Value, verdict: Result<Option<Violation>, String>) -> (r: Result<
    Resume,
    YamlDiag,
>)
    ensures
        match r {
            Ok(resume) => value_diag(json::json_tree(*value), schema::verdict_model(verdict))
                is None && resume_of(json::json_tree(*value), resume),
            Err(d) => value_diag(json::json_tree(*value), schema::verdict_model(verdict)) == Some(
                d@,
            ),
        },
{
    match verdict {
        Ok(None) => {},
        Ok(Some(v)) => {
            return Err(violation_to_diag(&v));
        },
        Err(e) => {
            return Err(schema_failure(e));
        },
    }
    proof {
        reveal_strlit("");
        assert(""@ =~= Seq::<char>::empty());
    }
    match ResumeYaml::decode(value, "") {
        Ok(document) => Ok(document.cv),
        Err(e) => {
            let path = if e.path.as_str().is_empty() {
                ".".to_string()
            } else {
                e.path
            };
            Err(YamlDiag { path: Some(path), reason: e.reason, line: None, column: None })
        },
    }
}

fn schema_failure(e: String) -> (r: YamlDiag)
    ensures
        r@ == structural_diag(None, "resume schema: "@ + e@),
{
    let reason = text::concat2("resume schema: ", e.as_str());
    YamlDiag { path: None, reason, line: None, column: None }
}

/// Parses YAML bytes into a resume, or says what is wrong with them, and where.
pub fn parse_and_validate(bytes: &[u8]) -> (r: Result<Resume, YamlDiag>)
    ensures
        match r {
            Ok(resume) => document_diag(bytes@) is None && resume_of(
                yaml_parsed(bytes@)->Ok_0,
                resume,
            ),
            Err(d) => document_diag(bytes@) == Some(d@),
        },
{
    let value = match parse_yaml(bytes) {
        Ok(v) => v,
        Err(f) => {
            let reason = text::concat2("invalid YAML: ", f.message.as_str());
            return Err(YamlDiag { path: None, reason, line: f.line, column: f.column });
        },
    };
    let resume_schema = match schema::load_resume_schema() {
        Ok(s) => s,
        Err(e) => {
            return Err(schema_failure(e));
        },
    };
    let verdict = schema::first_violation(&resume_schema, &value);
    read_validated(&value, verdict)
}

// ---------------------------------------------------------------------------
// Laws
// ---------------------------------------------------------------------------

/// A key as a pointer segment: a tilde is written `~0`, a slash `~1`.
pub open spec fn escaped(key: Seq<char>) -> Seq<char>
    decreases key.len(),
{
    if key.len() == 0 {
        Seq::empty()
    } else if key[0] == '~' {
        seq!['~', '0'] + escaped(key.skip(1))
    } else if key[0] == '/' {
        seq!['~', '1'] + escaped(key.skip(1))
    } else {
        seq![key[0]] + escaped(key.skip(1))
    }
}

/// A key with its tildes escaped, and nothing else.
spec fn half_escaped(key: Seq<char>) -> Seq<char>
    decreases key.len(),
{
    if key.len() == 0 {
        Seq::empty()
    } else if key[0] == '~' {
        seq!['~', '0'] + half_escaped(key.skip(1))
    } else {
        seq![key[0]] + half_escaped(key.skip(1))
    }
}

proof fn lemma_slashes_come_back(key: Seq<char>)
    ensures
        replaced(escaped(key), '1', '/') == half_escaped(key),
    decreases key.len(),
{
    if key.len() > 0 {
        let rest = escaped(key.skip(1));
        lemma_slashes_come_back(key.skip(1));
        let all = escaped(key);
        if key[0] == '~' {
            assert(all.skip(1) =~= seq!['0'] + rest);
            assert((seq!['0'] + rest).skip(1) =~= rest);
            assert(replaced(seq!['0'] + rest, '1', '/') == seq!['0'] + replaced(rest, '1', '/'));
            assert(replaced(all, '1', '/') == seq!['~'] + (seq!['0'] + replaced(rest, '1', '/')));
            assert(seq!['~'] + (seq!['0'] + half_escaped(key.skip(1))) =~= seq!['~', '0']
                + half_escaped(key.skip(1)));
        } else if key[0] == '/' {
            assert(all.skip(2) =~= rest);
        } else {
            assert(all.skip(1) =~= rest);
        }
    }
}

proof fn lemma_tildes_come_back(key: Seq<char>)
    ensures
        replaced(half_escaped(key), '0', '~') == key,
    decreases key.len(),
{
    if key.len() > 0 {
        let rest = half_escaped(key.skip(1));
        lemma_tildes_come_back(key.skip(1));
        let all = half_escaped(key);
        assert(seq![key[0]] + key.skip(1) =~= key);
        if key[0] == '~' {
            assert(all.skip(2) =~= rest);
        } else {
            assert(all.skip(1) =~= rest);
        }
    }
}

proof fn lemma_segment_comes_back(key: Seq<char>)
    ensures
        unescaped(escaped(key)) == key,
{
    lemma_slashes_come_back(key);
    lemma_tildes_come_back(key);
}

proof fn lemma_escaped_has_no_slash(key: Seq<char>)
    ensures
        forall|i: int| 0 <= i < escaped(key).len() ==> #[trigger] escaped(key)[i] != '/',
        key.len() > 0 ==> escaped(key).len() > 0,
    decreases key.len(),
{
    if key.len() > 0 {
        lemma_escaped_has_no_slash(key.skip(1));
        let rest = escaped(key.skip(1));
        let n = escaped(key).len() - rest.len();
        assert forall|i: int| 0 <= i < escaped(key).len() implies #[trigger] escaped(key)[i]
            != '/' by {
            if i >= n {
                assert(escaped(key)[i] == rest[i - n]);
            }
        }
    }
}

/// A text without a slash behind a slash is one more segment.
proof fn lemma_one_more_segment(s: Seq<char>, e: Seq<char>)
    requires
        forall|i: int| 0 <= i < e.len() ==> #[trigger] e[i] != '/',
    ensures
        text::segments(s + seq!['/'] + e) == text::segments(s).push(e),
    decreases e.len(),
{
    let all = s + seq!['/'] + e;
    if e.len() == 0 {
        assert(all.drop_last() =~= s);
        assert(all.last() == '/');
        assert(e =~= Seq::empty());
    } else {
        let shorter = e.drop_last();
        assert forall|i: int| 0 <= i < shorter.len() implies #[trigger] shorter[i] != '/' by {
            assert(shorter[i] == e[i]);
        }
        lemma_one_more_segment(s, shorter);
        assert(all.drop_last() =~= s + seq!['/'] + shorter);
        assert(all.last() == e[e.len() - 1]);
        assert(shorter.push(e.last()) =~= e);
        assert(text::segments(s).push(shorter).drop_last() =~= text::segments(s));
    }
}

/// A text without a slash is one segment.
proof fn lemma_single_segment(e: Seq<char>)
    requires
        forall|i: int| 0 <= i < e.len() ==> #[trigger] e[i] != '/',
    ensures
        text::segments(e) == seq![e],
    decreases e.len(),
{
    if e.len() == 0 {
        assert(e =~= Seq::empty());
    } else {
        let shorter = e.drop_last();
        assert forall|i: int| 0 <= i < shorter.len() implies #[trigger] shorter[i] != '/' by {
            assert(shorter[i] == e[i]);
        }
        lemma_single_segment(shorter);
        assert(e.last() == e[e.len() - 1]);
        assert(shorter.push(e.last()) =~= e);
        assert(text::segments(e) =~= seq![e]);
    }
}

/// The keys as pointer segments.
pub open spec fn escaped_keys(keys: Seq<Seq<char>>) -> Seq<Seq<char>> {
    Seq::new(keys.len(), |i: int| escaped(keys[i]))
}

/// The JSON pointer that leads along the keys.
pub open spec fn pointer_of(keys: Seq<Seq<char>>) -> Seq<char> {
    seq!['/'] + text::joined(escaped_keys(keys), seq!['/'])
}

/// The keys in dotted form: indices in brackets, other keys behind dots.
pub open spec fn dotted_keys(keys: Seq<Seq<char>>) -> Seq<char>
    decreases keys.len(),
{
    if keys.len() == 0 {
        Seq::empty()
    } else {
        let before = dotted_keys(keys.drop_last());
        let key = keys.last();
        if is_index(key) {
            before + "["@ + key + "]"@
        } else if before.len() == 0 {
            key
        } else {
            before + "."@ + key
        }
    }
}

proof fn lemma_segments_of_keys(keys: Seq<Seq<char>>)
    requires
        keys.len() > 0,
    ensures
        text::segments(text::joined(escaped_keys(keys), seq!['/'])) == escaped_keys(keys),
        keys[0].len() > 0 ==> {
            &&& text::joined(escaped_keys(keys), seq!['/']).len() > 0
            &&& text::joined(escaped_keys(keys), seq!['/']).first() != '/'
        },
    decreases keys.len(),
{
    let before = keys.drop_last();
    let all = escaped_keys(keys);
    lemma_escaped_has_no_slash(keys.last());
    assert(all.drop_last() =~= escaped_keys(before));
    assert(all.last() == escaped(keys.last()));
    if before.len() == 0 {
        lemma_single_segment(all.last());
        assert(all =~= seq![all.last()]);
        if keys[0].len() > 0 {
            assert(all.last().first() == escaped(keys.last())[0]);
        }
    } else {
        lemma_segments_of_keys(before);
        let head = text::joined(escaped_keys(before), seq!['/']);
        lemma_one_more_segment(head, all.last());
        assert(all =~= escaped_keys(before).push(all.last()));
        assert(before[0] == keys[0]);
        if keys[0].len() > 0 {
            assert((head + seq!['/'] + all.last()).first() == head.first());
        }
    }
}

proof fn lemma_dotted_of_keys(keys: Seq<Seq<char>>)
    ensures
        dotted(escaped_keys(keys)) == dotted_keys(keys),
    decreases keys.len(),
{
    if keys.len() > 0 {
        lemma_dotted_of_keys(keys.drop_last());
        lemma_segment_comes_back(keys.last());
        assert(escaped_keys(keys).drop_last() =~= escaped_keys(keys.drop_last()));
    }
}

/// An empty key in front leaves no trace in the dotted form.
proof fn lemma_empty_key_in_front(keys: Seq<Seq<char>>)
    requires
        keys.len() > 0,
        keys[0].len() == 0,
    ensures
        dotted_keys(keys) == dotted_keys(keys.drop_first()),
    decreases keys.len(),
{
    if keys.len() == 1 {
        assert(dotted_keys(keys.drop_last()) =~= Seq::empty());
        assert(keys.last() =~= Seq::empty());
        assert(dotted_keys(keys.drop_first()) =~= Seq::empty());
    } else {
        lemma_empty_key_in_front(keys.drop_last());
        assert(keys.drop_last().drop_first() =~= keys.drop_first().drop_last());
        assert(keys.drop_first().last() == keys.last());
    }
}

proof fn lemma_keys_behind_slashes(keys: Seq<Seq<char>>)
    ensures
        dotted(
            text::segments(
                without_leading_slashes(text::joined(escaped_keys(keys), seq!['/'])),
            ),
        ) == dotted_keys(keys),
    decreases keys.len(),
{
    let all = escaped_keys(keys);
    let body = text::joined(all, seq!['/']);
    if keys.len() > 0 && keys[0].len() > 0 {
        lemma_segments_of_keys(keys);
        lemma_dotted_of_keys(keys);
        assert(without_leading_slashes(body) == body);
    } else if keys.len() > 1 {
        let rest = keys.drop_first();
        lemma_keys_behind_slashes(rest);
        lemma_empty_key_in_front(keys);
        text::lemma_join_from_the_front(all, seq!['/']);
        assert(all.drop_first() =~= escaped_keys(rest));
        assert(all.first() =~= Seq::empty());
        assert(body.drop_first() =~= text::joined(escaped_keys(rest), seq!['/']));
    } else {
        assert(body =~= Seq::empty());
        let segs = text::segments(body);
        assert(segs =~= seq![Seq::empty()]);
        assert(dotted(segs.drop_last()) =~= Seq::empty());
        lemma_segment_comes_back(Seq::empty());
        assert(dotted(segs) =~= Seq::empty());
        if keys.len() == 1 {
            lemma_empty_key_in_front(keys);
            assert(dotted_keys(keys.drop_first()) =~= Seq::empty());
        }
    }
}

/// Keys with slashes and tildes survive the pointer form: a pointer that leads
/// along the keys shows each of them as it is.
pub proof fn keys_survive_the_pointer(keys: Seq<Seq<char>>)
    ensures
        dotted_pointer(pointer_of(keys)) == dotted_keys(keys),
{
    lemma_keys_behind_slashes(keys);
    assert(pointer_of(keys).drop_first() =~= text::joined(escaped_keys(keys), seq!['/']));
}

/// A syntax error has no path; any other diagnostic has no position.
pub proof fn diagnostics_have_path_or_position(bytes: Seq<u8>)
    requires
        document_diag(bytes) is Some,
    ensures
        yaml_parsed(bytes) is Err ==> document_diag(bytes)->Some_0.path is None,
        yaml_parsed(bytes) is Ok ==> document_diag(bytes)->Some_0.line is None && document_diag(
            bytes,
        )->Some_0.column is None,
{
}

} // verus!
