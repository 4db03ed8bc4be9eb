//! Listing the processes: the handler's process list text read back into entries.

use vstd::prelude::*;
use crate::communication::protocols::{ProcessEntry, RequestResult, RequestResultStatus};
use crate::process_handler::process::{Process, status_name, lemma_status_name_plain};
use crate::process_handler::{entry_text, is_listing, proclist_text};
use crate::text::{
    chars_of, decimal, free_of, join_with, lemma_decimal_free_of, lemma_split_join, split_chars, split_on, string_of,
};

verus! {

/// The processes as sent to the front end.
#[derive(Clone, Debug)]
pub struct Task {
    pub processes: Vec<ProcessEntry>,
}

pub open spec fn entry_view(e: ProcessEntry) -> (Seq<char>, Seq<char>, Seq<char>) {
    (e.name@, e.id@, e.status@)
}

/// The entry that one `name,id,status` line gives (later fields are ignored).
pub open spec fn line_entry(line: Seq<char>) -> (Seq<char>, Seq<char>, Seq<char>) {
    let f = split_on(line, ',');
    (f[0], f[1], f[2])
}

/// Every line of a non-empty list has at least three fields.
pub open spec fn procstring_well_formed(s: Seq<char>) -> bool {
    s.len() == 0 || forall|i: int| 0 <= i < split_on(s, ':').len()
        ==> #[trigger] split_on(split_on(s, ':')[i], ',').len() >= 3
}

/// The entries of a process list: none for the empty text, else one per
/// `:`-separated line.
pub open spec fn procstring_entries(s: Seq<char>) -> Seq<(Seq<char>, Seq<char>, Seq<char>)> {
    if s.len() == 0 {
        Seq::empty()
    } else {
        split_on(s, ':').map_values(|line: Seq<char>| line_entry(line))
    }
}

/// Whether a process list can be read (every line has three fields).
pub fn procstring_is_well_formed(str: &String) -> (b: bool)
    ensures
        b == procstring_well_formed(str@),
{
    let chars = chars_of(str.as_str());
    if chars.len() == 0 {
        return true;
    }
    let lines = split_chars(&chars, ':');
    let mut i: usize = 0;
    while i < lines.len()
        invariant
            chars@ == str@,
            chars@.len() > 0,
            lines@.map_values(|p: Vec<char>| p@) == split_on(chars@, ':'),
            i <= lines.len(),
            forall|j: int| 0 <= j < i ==> #[trigger] split_on(split_on(str@, ':')[j], ',').len() >= 3,
        decreases lines.len() - i,
    {
        let fields = split_chars(&lines[i], ',');
        assert(lines@.map_values(|p: Vec<char>| p@)[i as int] == lines@[i as int]@);
        if fields.len() < 3 {
            assert(split_on(split_on(str@, ':')[i as int], ',').len() < 3);
            return false;
        }
        i = i + 1;
    }
    true
}

/// Reads the handler's process list: one entry per `:`-separated line, whose
/// `,`-separated fields are the name, the id and the status.
pub fn procstring_as_list(str: String) -> (list: Vec<ProcessEntry>)
    requires
        procstring_well_formed(str@),
    ensures
        list@.map_values(|e: ProcessEntry| entry_view(e)) == procstring_entries(str@),
{
    let chars = chars_of(str.as_str());
    let mut rv_vec: Vec<ProcessEntry> = Vec::new();
    if chars.len() == 0 {
        assert(rv_vec@.map_values(|e: ProcessEntry| entry_view(e)) =~= procstring_entries(str@));
        return rv_vec;
    }
    let split = split_chars(&chars, ':');
    let ghost lines = split_on(str@, ':');
    let mut i: usize = 0;
    while i < split.len()
        invariant
            chars@ == str@,
            chars@.len() > 0,
            procstring_well_formed(str@),
            lines == split_on(str@, ':'),
            split@.map_values(|p: Vec<char>| p@) == lines,
            i <= split.len(),
            rv_vec@.map_values(|e: ProcessEntry| entry_view(e))
                == lines.take(i as int).map_values(|line: Seq<char>| line_entry(line)),
        decreases split.len() - i,
    {
        assert(split@.map_values(|p: Vec<char>| p@)[i as int] == split@[i as int]@);
        let types = split_chars(&split[i], ',');
        assert(split_on(lines[i as int], ',').len() >= 3);
        proof {
            let fv = types@.map_values(|p: Vec<char>| p@);
            assert(fv[0] == types@[0]@);
            assert(fv[1] == types@[1]@);
            assert(fv[2] == types@[2]@);
        }
        let entry = ProcessEntry {
            name: string_of(&types[0]),
            id: string_of(&types[1]),
            status: string_of(&types[2]),
        };
        proof {
            let fv = types@.map_values(|p: Vec<char>| p@);
            assert(fv == split_on(lines[i as int], ','));
            assert(entry_view(entry) == line_entry(lines[i as int]));
        }
        let ghost before = rv_vec@;
        let ghost entry_v = entry;
        rv_vec.push(entry);
        proof {
            assert(lines.take(i + 1).drop_last() =~= lines.take(i as int));
            assert(rv_vec@.drop_last() =~= before);
            let a = rv_vec@.map_values(|e: ProcessEntry| entry_view(e));
            let b = lines.take(i + 1).map_values(|line: Seq<char>| line_entry(line));
            let a0 = before.map_values(|e: ProcessEntry| entry_view(e));
            let b0 = lines.take(i as int).map_values(|line: Seq<char>| line_entry(line));
            assert(a0 == b0);
            assert(lines.len() == split@.len());
            assert(b0.len() == i);
            assert(before.len() == i);
            assert(rv_vec@.len() == i + 1);
            assert forall|j: int| 0 <= j < i + 1 implies a[j] == b[j] by {
                if j < i {
                    assert(a[j] == a0[j]);
                    assert(b[j] == b0[j]);
                } else {
                    assert(rv_vec@[j] == entry_v);
                }
            }
            assert(rv_vec@.map_values(|e: ProcessEntry| entry_view(e)) =~= lines.take(i + 1).map_values(
                |line: Seq<char>| line_entry(line),
            ));
        }
        i = i + 1;
    }
    assert(lines.take(split.len() as int) =~= lines);
    rv_vec
}

/// The processes listed in a successful answer of the handler; `None` for
/// any other answer, or when no answer came.
pub fn processes_from_answer(answer: Option<RequestResult>) -> (r: Option<Task>)
    requires
        answer matches Some(a) ==> (a.status == RequestResultStatus::Success && a.body is Some
            ==> procstring_well_formed(a.body->0@)),
    ensures
        match answer {
            Some(a) if a.status == RequestResultStatus::Success && a.body is Some =>
                r matches Some(t) && t.processes@.map_values(|e: ProcessEntry| entry_view(e))
                    == procstring_entries(a.body->0@),
            _ => r is None,
        },
{
    match answer {
        Some(RequestResult { status: RequestResultStatus::Success, body: Some(body), id: _, process_status: _ }) => {
            Some(Task { processes: procstring_as_list(body) })
        },
        _ => None,
    }
}

/// The entry under which a listed process is read back.
pub open spec fn listed_entry(e: (usize, Process)) -> (Seq<char>, Seq<char>, Seq<char>) {
    (e.1.name@, decimal(e.1.process_id as nat), status_name(e.1.status))
}

proof fn lemma_entry_text_fields(p: Process)
    requires
        free_of(p.name@, ','),
        free_of(p.name@, ':'),
    ensures
        split_on(entry_text(p), ',') == seq![p.name@, decimal(p.process_id as nat), status_name(p.status)],
        free_of(entry_text(p), ':'),
        entry_text(p).len() > 0,
{
    let fields = seq![p.name@, decimal(p.process_id as nat), status_name(p.status)];
    lemma_decimal_free_of(p.process_id as nat, ',');
    lemma_decimal_free_of(p.process_id as nat, ':');
    lemma_status_name_plain(p.status);
    assert(join_with(fields, ',') =~= entry_text(p)) by {
        let two = seq![p.name@, decimal(p.process_id as nat)];
        assert(fields.drop_last() =~= two);
        assert(two.drop_last() =~= seq![p.name@]);
        assert(join_with(seq![p.name@], ',') == p.name@);
        assert(join_with(two, ',') == p.name@.push(',') + decimal(p.process_id as nat));
        assert(join_with(fields, ',') == join_with(two, ',').push(',') + status_name(p.status));
        assert(p.name@.push(',') =~= p.name@ + seq![',']);
        assert((p.name@.push(',') + decimal(p.process_id as nat)).push(',') =~= p.name@ + seq![','] + decimal(p.process_id as nat) + seq![',']);
    }
    assert forall|i: int| 0 <= i < fields.len() implies free_of(#[trigger] fields[i], ',') by {}
    lemma_split_join(fields, ',');
    let t = entry_text(p);
    assert forall|i: int| 0 <= i < t.len() implies t[i] != ':' by {
        let n = p.name@.len();
        let d = decimal(p.process_id as nat).len();
        if i < n {
            assert(t[i] == p.name@[i]);
        } else if i == n {
        } else if i < n + 1 + d {
            assert(t[i] == decimal(p.process_id as nat)[i - n - 1]);
        } else if i == n + 1 + d {
        } else {
            assert(t[i] == status_name(p.status)[i - n - 2 - d]);
        }
    }
    assert(t[p.name@.len() as int] == ',');
}

proof fn lemma_join_nonempty(parts: Seq<Seq<char>>, sep: char)
    requires
        parts.len() >= 1,
        parts.last().len() > 0,
    ensures
        join_with(parts, sep).len() > 0,
{
}

/// Reading back the process list that the handler sends gives, for each
/// process in the handler's order, its name, its id in decimal and its
/// status text, provided that no process name holds `,` or `:`.
pub proof fn lemma_process_list_roundtrip(m: Map<usize, Process>, order: Seq<(usize, Process)>)
    requires
        is_listing(order, m),
        forall|k: usize| #[trigger] m.contains_key(k) ==> free_of(m[k].name@, ',') && free_of(m[k].name@, ':'),
    ensures
        procstring_well_formed(proclist_text(order)),
        procstring_entries(proclist_text(order)) == order.map_values(|e: (usize, Process)| listed_entry(e)),
{
    let texts = order.map_values(|e: (usize, Process)| entry_text(e.1));
    assert forall|i: int| 0 <= i < order.len() implies {
        &&& split_on(#[trigger] texts[i], ',') == seq![order[i].1.name@, decimal(order[i].1.process_id as nat), status_name(order[i].1.status)]
        &&& free_of(texts[i], ':')
        &&& texts[i].len() > 0
    } by {
        assert(m.contains_key(order[i].0));
        lemma_entry_text_fields(order[i].1);
    }
    if order.len() == 0 {
        assert(texts =~= Seq::<Seq<char>>::empty());
        assert(proclist_text(order) =~= Seq::<char>::empty());
        assert(procstring_entries(proclist_text(order)) =~= order.map_values(|e: (usize, Process)| listed_entry(e)));
    } else {
        lemma_split_join(texts, ':');
        assert(texts.last() == texts[texts.len() - 1]);
        lemma_join_nonempty(texts, ':');
        let s = proclist_text(order);
        assert(split_on(s, ':') == texts);
        assert forall|i: int| 0 <= i < split_on(s, ':').len()
            implies #[trigger] split_on(split_on(s, ':')[i], ',').len() >= 3 by {
            assert(split_on(s, ':')[i] == texts[i]);
        }
        assert(procstring_entries(s) =~= order.map_values(|e: (usize, Process)| listed_entry(e))) by {
            assert forall|i: int| 0 <= i < order.len() implies procstring_entries(s)[i]
                == #[trigger] listed_entry(order[i]) by {
                assert(split_on(s, ':')[i] == texts[i]);
            }
        }
    }
}

} // verus!
