//! The advanced lesson: a WebSocket echo, server-sent clock events and a
//! multipart upload summary.
use vstd::prelude::*;
use crate::text::{join2, decimal, decimal_text};

verus! {

/// What a WebSocket receives.
#[derive(Debug, Clone, PartialEq, Eq)]
pub enum Incoming {
    Text(String),
    Other,
    Failed,
}

/// What happens on a WebSocket connection.
#[derive(Debug, Clone, PartialEq, Eq)]
pub enum SocketEvent {
    Opened,
    Received(Incoming),
    Closed,
}

/// What the server does in answer: send a text, do nothing, or end the
/// session with a line for the log.
#[derive(Debug, Clone, PartialEq, Eq)]
pub enum SocketAction {
    Send(String),
    Ignore,
    Finish(String),
}

/// The echo session: greet on opening, echo every text, ignore anything
/// else, and log the disconnection.
pub fn on_socket_event(event: SocketEvent) -> (r: SocketAction)
    ensures
        event is Opened ==> (r matches SocketAction::Send(t) && t@ == "Hello World"@),
        event matches SocketEvent::Received(Incoming::Text(m)) ==> (r matches SocketAction::Send(t)
            && t@ == "Echo: "@ + m@),
        event matches SocketEvent::Received(m) && !(m is Text) ==> r is Ignore,
        event is Closed ==> (r matches SocketAction::Finish(t) && t@ == "disconected"@),
{
    match event {
        SocketEvent::Opened => SocketAction::Send(String::from_str("Hello World")),
        SocketEvent::Received(Incoming::Text(m)) => SocketAction::Send(
            join2("Echo: ", m.as_str()),
        ),
        SocketEvent::Received(_) => SocketAction::Ignore,
        SocketEvent::Closed => SocketAction::Finish(String::from_str("disconected")),
    }
}

/// The data of a server-sent clock event, from the printed time.
pub fn sse_event_data(time_text: &str) -> (r: String)
    ensures
        r@ == "Server time: "@ + time_text@,
{
    join2("Server time: ", time_text)
}

/// A field of a multipart upload: its name, if it has one, and its size in bytes.
#[derive(Debug, Clone, PartialEq, Eq)]
pub struct UploadedField {
    pub name: Option<String>,
    pub size: usize,
}

/// The line that reports one field: `name: size bytes`, with `unknown`
/// for a field without a name.
pub open spec fn field_line(f: UploadedField) -> Seq<char> {
    let name = match f.name {
        Some(n) => n@,
        None => "unknown"@,
    };
    name + ": "@ + decimal(f.size as nat) + " bytes"@
}

/// `parts` joined with `sep` between each two of them.
pub open spec fn joined(parts: Seq<Seq<char>>, sep: Seq<char>) -> Seq<char>
    decreases parts.len(),
{
    if parts.len() == 0 {
        Seq::empty()
    } else if parts.len() == 1 {
        parts[0]
    } else {
        joined(parts.drop_last(), sep) + sep + parts.last()
    }
}

/// The lines of all the fields, in order.
pub open spec fn field_lines(fields: Seq<UploadedField>) -> Seq<Seq<char>> {
    Seq::new(fields.len(), |i: int| field_line(fields[i]))
}

/// The answer to an upload: the list of its fields, or a note that there were none.
pub open spec fn upload_report(fields: Seq<UploadedField>) -> Seq<char> {
    if fields.len() == 0 {
        "No files uploaded"@
    } else {
        "Uploaded: "@ + joined(field_lines(fields), ", "@)
    }
}

fn field_report(f: &UploadedField) -> (r: String)
    ensures
        r@ == field_line(*f),
{
    let digits = decimal_text(f.size as u64);
    let head = match &f.name {
        Some(n) => join2(n.as_str(), ": "),
        None => String::from_str("unknown: "),
    };
    proof {
        reveal_strlit("unknown: ");
        reveal_strlit("unknown");
        reveal_strlit(": ");
    }
    let head = join2(head.as_str(), digits.as_str());
    join2(head.as_str(), " bytes")
}

/// Reports the fields of an upload.
pub fn upload_summary(fields: &Vec<UploadedField>) -> (r: String)
    ensures
        r@ == upload_report(fields@),
{
    if fields.len() == 0 {
        return String::from_str("No files uploaded");
    }
    let ghost lines = field_lines(fields@);
    let mut list = String::new();
    let n = fields.len();
    for i in 0..n
        invariant
            n == fields@.len(),
            lines == field_lines(fields@),
            list@ == joined(lines.take(i as int), ", "@),
    {
        let line = field_report(&fields[i]);
        if i > 0 {
            list.append(", ");
        }
        list.append(line.as_str());
        assert(lines.take(i + 1).drop_last() =~= lines.take(i as int));
        proof {
            if i == 0 {
                assert(list@ =~= lines.take(1)[0]);
            }
        }
    }
    assert(lines.take(n as int) =~= lines);
    join2("Uploaded: ", list.as_str())
}

/// The report has one line per field, in the fields' order.
pub proof fn law_one_line_per_field(fields: Seq<UploadedField>)
    ensures
        field_lines(fields).len() == fields.len(),
        forall|i: int| 0 <= i < fields.len() ==> #[trigger] field_lines(fields)[i] == field_line(
            fields[i],
        ),
{
}

/// A one-field upload reports that field's line; adding a field to a
/// non-empty upload appends `, ` and that field's line to the report.
pub proof fn law_report_grows_by_one_line(fields: Seq<UploadedField>, f: UploadedField)
    ensures
        upload_report(seq![f]) == "Uploaded: "@ + field_line(f),
        fields.len() > 0 ==> upload_report(fields.push(f)) == upload_report(fields) + ", "@
            + field_line(f),
{
    assert(field_lines(seq![f]) =~= seq![field_line(f)]);
    if fields.len() > 0 {
        let parts = field_lines(fields.push(f));
        assert(parts.drop_last() =~= field_lines(fields));
        assert(parts.last() == field_line(f));
        assert(upload_report(fields.push(f)) =~= upload_report(fields) + ", "@ + field_line(f));
    }
}

/// An upload reports "No files uploaded" exactly when it had no field.
pub proof fn law_empty_upload(fields: Seq<UploadedField>)
    ensures
        (upload_report(fields) == "No files uploaded"@) <==> fields.len() == 0,
{
    reveal_strlit("No files uploaded");
    reveal_strlit("Uploaded: ");
    if fields.len() != 0 {
        let r = upload_report(fields);
        assert(r[0] == 'U');
        assert("No files uploaded"@[0] == 'N');
    }
}

} // verus!
