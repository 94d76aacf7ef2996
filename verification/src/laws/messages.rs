//! What the user is told: messages keep what they are about.

use vstd::prelude::*;
use crate::cli;
use crate::cli::Command;
use crate::error::{AtsError, LlmClass, YamlDiag};
use crate::json::Tree;
use crate::ports::{LlmCallRecord, LlmError};
use crate::render::validate;
use crate::schema;
use crate::schema::{KindModel, ViolationModel};
use crate::text;

verus! {

proof fn lemma_self(s: Seq<char>)
    ensures
        text::occurs(s, s),
{
    assert(s.subrange(0, s.len() as int) =~= s);
    assert(text::stands_at(s, s, 0));
}

proof fn lemma_tail(head: Seq<char>, s: Seq<char>)
    ensures
        text::occurs(head + s, s),
{
    lemma_self(s);
    text::lemma_occurs_behind(head, s, s);
}

/// The text of an error holds the message that it was made with.
pub proof fn errors_keep_their_message(e: AtsError)
    ensures
        e matches AtsError::Config(m) ==> text::occurs(e.text(), m@),
        e matches AtsError::Yaml(d) ==> text::occurs(e.text(), d.text()),
        e matches AtsError::Scrape(c) ==> text::occurs(e.text(), c.text()),
        e matches AtsError::Llm(c) ==> text::occurs(e.text(), c.text()),
        e matches AtsError::SchemaInvalid(m) ==> text::occurs(e.text(), m@),
        e matches AtsError::Pdf(m) ==> text::occurs(e.text(), m@),
        e matches AtsError::Io(m) ==> text::occurs(e.text(), m@),
        e matches AtsError::Other(m) ==> e.text() == m@,
{
    match e {
        AtsError::Config(m) => lemma_tail("config error: "@, m@),
        AtsError::Yaml(d) => lemma_tail("yaml error: "@, d.text()),
        AtsError::Scrape(c) => lemma_tail("scrape error: "@, c.text()),
        AtsError::Llm(c) => lemma_tail("llm error: "@, c.text()),
        AtsError::SchemaInvalid(m) => lemma_tail("schema validation failed: "@, m@),
        AtsError::Pdf(m) => lemma_tail("pdf error: "@, m@),
        AtsError::Io(m) => lemma_tail("io error: "@, m@),
        AtsError::Other(m) => {},
    }
}

/// The text of a model failure holds its message, and a failure keeps it on its way to
/// the user.
pub proof fn model_failures_keep_their_message(e: LlmError, c: LlmClass)
    requires
        e.class_of(c),
    ensures
        e matches LlmError::Transient(m) ==> c is Transient && text::occurs(c.text(), m@),
        e matches LlmError::Auth(m) ==> c is Auth && text::occurs(c.text(), m@),
        e matches LlmError::ContextExceeded { model, message, prompt_tokens } ==> c
            is ContextExceeded && text::occurs(c.text(), message@) && text::occurs(c.text(), model@),
        e matches LlmError::Other(m) ==> c is Other && text::occurs(c.text(), m@),
{
    match e {
        LlmError::Transient(m) => lemma_tail("transient: "@, m@),
        LlmError::Auth(m) => lemma_tail("auth: "@, m@),
        LlmError::ContextExceeded { model, message, prompt_tokens } => {
            lemma_tail(model@ + ": "@, message@);
            let said = model@ + ": "@ + message@;
            text::lemma_occurs_behind("context-exceeded: "@, said, message@);
            lemma_self(model@);
            text::lemma_occurs_in_front(model@, ": "@, model@);
            text::lemma_occurs_in_front(model@ + ": "@, message@, model@);
            text::lemma_occurs_behind("context-exceeded: "@, said, model@);
        },
        LlmError::Other(m) => lemma_tail("llm-other: "@, m@),
    }
}

/// A diagnostic starts with its path, where it has one, holds its reason, and tells line
/// and column where it knows them.
pub proof fn diagnostics_tell_where_and_what(d: YamlDiag)
    ensures
        text::occurs(d.text(), d.reason@),
        d.path matches Some(p) ==> text::stands_at(d.text(), p@, 0),
        d.line matches Some(l) ==> text::occurs(d.text(), " (line "@ + text::numeral(l as nat)),
        d.line is Some && d.column is Some ==> text::occurs(
            d.text(),
            ", column "@ + text::numeral(d.column->Some_0 as nat) + ")"@,
        ),
        d.line is None ==> d.text() == d.headline(),
{
    lemma_self(d.reason@);
    if d.path is Some {
        let p = d.path->Some_0@;
        text::lemma_occurs_behind(p + ": "@, d.reason@, d.reason@);
        assert(d.text().subrange(0, p.len() as int) =~= p);
    }
    text::lemma_occurs_in_front(d.headline(), d.position(), d.reason@);
    if d.line is Some {
        let said = " (line "@ + text::numeral(d.line->Some_0 as nat);
        lemma_self(said);
        if d.column is Some {
            let n = text::numeral(d.column->Some_0 as nat);
            let rest = ", column "@ + n + ")"@;
            assert(d.position() =~= said + rest);
            text::lemma_occurs_in_front(said, rest, said);
            lemma_tail(said, rest);
            text::lemma_occurs_behind(d.headline(), d.position(), rest);
        } else {
            text::lemma_occurs_in_front(said, ")"@, said);
        }
        text::lemma_occurs_behind(d.headline(), d.position(), said);
    } else {
        assert(d.text() =~= d.headline());
    }
}

/// A document is accepted where it parses, meets the schema, and reads as a resume; and
/// nowhere else.
pub proof fn document_passes_three_times(bytes: Seq<u8>, s: Tree)
    requires
        schema::resume_schema() == Ok::<Tree, Seq<char>>(s),
    ensures
        validate::document_diag(bytes) is None <==> {
            &&& validate::yaml_parsed(bytes) is Ok
            &&& schema::schema_verdict(s, validate::yaml_parsed(bytes)->Ok_0) matches Ok(None)
            &&& <crate::domain::ResumeYaml as crate::decode::Decode>::problem(
                validate::yaml_parsed(bytes)->Ok_0,
                Seq::empty(),
            ) is None
        },
{
}

/// A violation names what it is about: a missing member by its own path and name, unknown
/// members each by its name, anything else in the words of the validator.
pub proof fn violations_name_their_member(v: ViolationModel)
    ensures
        v.kind matches KindModel::Required(Tree::Text(name)) ==> text::occurs(
            validate::violation_diag(v).reason,
            name,
        ) && (validate::violation_diag(v).path matches Some(p) && text::occurs(p, name)),
        v.kind matches KindModel::AdditionalProperties(names) ==> forall|i: int|
            0 <= i < names.len() ==> text::occurs(validate::violation_diag(v).reason, #[trigger] names[i]),
        v.kind is Other ==> validate::violation_diag(v).reason == v.message,
{
    match v.kind {
        KindModel::Required(property) => {
            if property is Text {
                let name = property->Text_0;
                lemma_tail("`"@, name);
                text::lemma_occurs_in_front("`"@ + name, "` is a required property"@, name);
                let base = validate::dotted_pointer(v.instance_path);
                lemma_self(name);
                lemma_tail(base + "."@, name);
                assert(crate::decode::member_path(base, name) == if base.len() == 0 {
                    name
                } else {
                    base + "."@ + name
                });
            }
        },
        KindModel::AdditionalProperties(names) => {
            assert forall|i: int| 0 <= i < names.len() implies text::occurs(
                validate::violation_diag(v).reason,
                #[trigger] names[i],
            ) by {
                crate::laws::lines::lemma_joined_holds(names, ", "@, i);
                text::lemma_occurs_behind(
                    "unexpected additional properties: "@,
                    text::joined(names, ", "@),
                    names[i],
                );
            }
        },
        KindModel::Other => {},
    }
}

/// The report on a call tells its stage, the three counts, the attempt and the outcome.
pub proof fn usage_line_tells_the_call(stage: Seq<char>, call: LlmCallRecord)
    ensures
        ({
            let line = cli::usage_line_text(stage, call);
            &&& text::stands_at(line, "["@ + stage + "]"@, 0)
            &&& text::occurs(line, " outcome="@ + call.outcome@ + "\n"@)
            &&& line == "["@ + stage + "]"@ + " tokens: prompt="@ + text::numeral(
                call.usage.prompt as nat,
            ) + " completion="@ + text::numeral(call.usage.completion as nat) + " total="@
                + text::numeral(call.usage.total as nat) + " attempt="@ + text::numeral(
                call.attempt as nat,
            ) + " outcome="@ + call.outcome@ + "\n"@
        }),
{
    reveal_strlit("] tokens: prompt=");
    reveal_strlit("]");
    reveal_strlit(" tokens: prompt=");
    let line = cli::usage_line_text(stage, call);
    assert("] tokens: prompt="@ =~= "]"@ + " tokens: prompt="@);
    let head = "["@ + stage + "]"@;
    let mid = " tokens: prompt="@ + text::numeral(call.usage.prompt as nat) + " completion="@
        + text::numeral(call.usage.completion as nat) + " total="@ + text::numeral(
        call.usage.total as nat,
    ) + " attempt="@ + text::numeral(call.attempt as nat);
    let rest = " outcome="@ + call.outcome@ + "\n"@;
    assert(line =~= head + mid + rest);
    assert(line.subrange(0, head.len() as int) =~= head);
    lemma_tail(head + mid, rest);
    assert(line =~= "["@ + stage + "]"@ + " tokens: prompt="@ + text::numeral(
        call.usage.prompt as nat,
    ) + " completion="@ + text::numeral(call.usage.completion as nat) + " total="@ + text::numeral(
        call.usage.total as nat,
    ) + " attempt="@ + text::numeral(call.attempt as nat) + " outcome="@ + call.outcome@ + "\n"@);
}

/// What a command was called with is on record under the names of its arguments.
pub proof fn arguments_are_on_record(c: Command)
    ensures
        c.summary() matches Tree::Object(m) && {
            &&& c matches Command::Render { yaml } ==> m.dom().contains("yaml"@) && m["yaml"@]
                == Tree::Text(yaml@)
            &&& c matches Command::Scrape { url } ==> m.dom().contains("url"@) && m["url"@]
                == Tree::Text(url@)
            &&& c matches Command::Optimize { resume, keywords } ==> m.dom().contains("resume"@)
                && m["resume"@] == Tree::Text(resume.description()) && m.dom().contains(
                "keywords"@,
            ) && m["keywords"@] == Tree::Text(keywords.description())
            &&& c matches Command::Pdf { out } ==> m.dom().contains("out"@) && m["out"@]
                == Tree::Text(out@)
            &&& c matches Command::Run { yaml, url } ==> m.dom().contains("yaml"@) && m["yaml"@]
                == Tree::Text(yaml@) && m.dom().contains("url"@) && m["url"@] == Tree::Text(url@)
        },
{
    reveal_strlit("yaml");
    reveal_strlit("url");
    reveal_strlit("resume");
    reveal_strlit("keywords");
    assert("yaml"@.len() == 4 && "url"@.len() == 3 && "resume"@.len() == 6 && "keywords"@.len()
        == 8);
}

} // verus!
