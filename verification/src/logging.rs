//! The log lines handed to the C log callback.

use vstd::prelude::*;

use crate::text::same_text;

verus! {

/// Texts joined with single spaces between them.
pub open spec fn space_joined(parts: Seq<Seq<char>>) -> Seq<char>
    decreases parts.len(),
{
    if parts.len() == 0 {
        Seq::empty()
    } else if parts.len() == 1 {
        parts[0]
    } else {
        space_joined(parts.drop_last()) + " "@ + parts.last()
    }
}

/// The summed lengths of some texts.
pub open spec fn total_len(parts: Seq<Seq<char>>) -> int
    decreases parts.len(),
{
    if parts.len() == 0 {
        0
    } else {
        total_len(parts.drop_last()) + parts.last().len()
    }
}

/// Adding a text to the list adds it at the end of the joined text, after one space.
pub proof fn law_space_joined_appends(parts: Seq<Seq<char>>, part: Seq<char>)
    ensures
        space_joined(parts.push(part)) == if parts.len() == 0 {
            part
        } else {
            space_joined(parts) + " "@ + part
        },
{
    assert(parts.push(part).drop_last() == parts);
    if parts.len() == 0 {
        assert(parts.push(part)[0] == part);
    }
}

/// The joined text holds every text and one space between each two: its length is the
/// summed lengths and one less than the number of texts.
pub proof fn law_space_joined_len(parts: Seq<Seq<char>>)
    requires
        parts.len() > 0,
    ensures
        space_joined(parts).len() == total_len(parts) + parts.len() - 1,
    decreases parts.len(),
{
    reveal_strlit(" ");
    assert(" "@.len() == 1);
    if parts.len() > 1 {
        law_space_joined_len(parts.drop_last());
        assert(space_joined(parts) == space_joined(parts.drop_last()) + " "@ + parts.last());
    } else {
        assert(parts.drop_last().len() == 0);
        assert(total_len(parts.drop_last()) == 0);
        assert(parts.last() == parts[0]);
    }
}

/// The summed lengths of a prefix grow with the prefix.
proof fn lemma_total_len_prefix(parts: Seq<Seq<char>>, m: int, n: int)
    requires
        0 <= m <= n <= parts.len(),
    ensures
        total_len(parts.take(m)) <= total_len(parts.take(n)),
    decreases n - m,
{
    if m < n {
        lemma_total_len_prefix(parts, m, n - 1);
        assert(parts.take(n).drop_last() == parts.take(n - 1));
    }
}

/// Each text stands in the joined text, in order: after the texts before it and a space
/// after each of them.
pub proof fn law_space_joined_holds_each_part(parts: Seq<Seq<char>>, k: int)
    requires
        0 <= k < parts.len(),
    ensures
        total_len(parts.take(k)) + k + parts[k].len() <= space_joined(parts).len(),
        space_joined(parts).subrange(
            total_len(parts.take(k)) + k,
            total_len(parts.take(k)) + k + parts[k].len(),
        ) == parts[k],
    decreases parts.len(),
{
    reveal_strlit(" ");
    assert(" "@.len() == 1);
    let n = parts.len();
    let start = total_len(parts.take(k)) + k;
    let end = start + parts[k].len();
    assert(parts.take(k + 1).drop_last() == parts.take(k));
    assert(total_len(parts.take(k + 1)) == total_len(parts.take(k)) + parts[k].len());
    if k == n - 1 {
        if n > 1 {
            law_space_joined_len(parts.drop_last());
            assert(parts.take(k) == parts.drop_last());
            assert(space_joined(parts) == space_joined(parts.drop_last()) + " "@ + parts.last());
            assert(space_joined(parts).subrange(start, end) =~= parts[k]);
        } else {
            assert(parts.take(0).len() == 0);
            assert(total_len(parts.take(0)) == 0);
        }
    } else {
        law_space_joined_holds_each_part(parts.drop_last(), k);
        assert(parts.drop_last().take(k) == parts.take(k));
        assert(parts.drop_last()[k] == parts[k]);
        law_space_joined_len(parts.drop_last());
        lemma_total_len_prefix(parts, k + 1, n - 1);
        assert(parts.take(n - 1) == parts.drop_last());
        assert(space_joined(parts) == space_joined(parts.drop_last()) + " "@ + parts.last());
        let prev = space_joined(parts.drop_last());
        lemma_total_len_prefix(parts, 0, k);
        assert(parts.take(0).len() == 0);
        assert(total_len(parts.take(0)) == 0);
        assert(start >= 0);
        assert(total_len(parts.take(k + 1)) <= total_len(parts.drop_last()));
        assert(prev.len() == total_len(parts.drop_last()) + n - 2);
        assert(end <= prev.len());
        assert(space_joined(parts) == prev + " "@ + parts.last());
        assert forall|i: int| 0 <= i < end - start implies #[trigger] space_joined(parts).subrange(start, end)[i]
            == prev.subrange(start, end)[i] by {
            assert(space_joined(parts)[start + i] == prev[start + i]);
        }
        assert(space_joined(parts).subrange(start, end) =~= prev.subrange(start, end));
    }
}

/// How one field of a log event is written: the `message` field by its value alone,
/// any other as `name=value`.
pub open spec fn field_text(name: Seq<char>, value: Seq<char>) -> Seq<char> {
    if name == "message"@ {
        value
    } else {
        name + "="@ + value
    }
}

/// The line for a log event: its level and target, then its fields after a colon when
/// it has any.
pub open spec fn event_line(level: Seq<char>, target: Seq<char>, fields: Seq<Seq<char>>) -> Seq<char> {
    if fields.len() == 0 {
        level + " "@ + target
    } else {
        level + " "@ + target + ": "@ + space_joined(fields)
    }
}

/// The view of a list of texts.
pub open spec fn texts_view(v: Seq<String>) -> Seq<Seq<char>> {
    v.map_values(|s: String| s@)
}

/// The log filter that callback logging is set up with: the level the caller gave, else
/// the `RUST_LOG` environment variable, else `ws2tcp_local=info`.
pub open spec fn log_filter_spec(log_level: Option<Seq<char>>, rust_log: Option<Seq<char>>) -> Seq<char> {
    match log_level {
        Some(l) => l,
        None => match rust_log {
            Some(r) => r,
            None => "ws2tcp_local=info"@,
        },
    }
}

/// Chooses the log filter: `log_level` when given, else `rust_log` (the value of
/// `RUST_LOG`, when it is set and is Unicode), else `ws2tcp_local=info`.
pub fn log_filter(log_level: Option<&str>, rust_log: Option<String>) -> (res: String)
    ensures
        res@ == log_filter_spec(
            match log_level {
                Some(l) => Some(l@),
                None => None,
            },
            match rust_log {
                Some(r) => Some(r@),
                None => None,
            },
        ),
{
    match log_level {
        Some(l) => l.to_owned(),
        None => match rust_log {
            Some(r) => r,
            None => "ws2tcp_local=info".to_owned(),
        },
    }
}

/// Writes the line for a log event.
pub fn format_event_line(level: &str, target: &str, fields: &Vec<String>) -> (res: String)
    ensures
        res@ == event_line(level@, target@, texts_view(fields@)),
{
    let mut line = level.to_owned();
    line.append(" ");
    line.append(target);
    let n: usize = fields.len();
    if n == 0 {
        return line;
    }
    line.append(": ");
    let ghost head = line@;
    let ghost parts = texts_view(fields@);
    let mut i: usize = 0;
    while i < n
        invariant
            n == fields@.len(),
            parts == texts_view(fields@),
            i <= n,
            n > 0,
            i == 0 ==> line@ == head,
            i > 0 ==> line@ == head + space_joined(parts.take(i as int)),
        decreases n - i,
    {
        if i > 0 {
            line.append(" ");
        }
        line.append(fields[i].as_str());
        proof {
            assert(parts.take(i + 1).drop_last() == parts.take(i as int));
            assert(parts.take(i + 1).last() == fields@[i as int]@);
            if i == 0 {
                assert(space_joined(parts.take(1)) == parts.take(1)[0]);
            }
        }
        i = i + 1;
    }
    proof {
        assert(parts.take(n as int) == parts);
    }
    line
}

/// The fields of one log event, written as they are recorded.
pub struct LogVisitor {
    fields: Vec<String>,
}

impl View for LogVisitor {
    type V = Seq<Seq<char>>;

    closed spec fn view(&self) -> Seq<Seq<char>> {
        texts_view(self.fields@)
    }
}

impl LogVisitor {
    /// A visitor that has recorded nothing.
    pub fn new() -> (res: Self)
        ensures
            res@ == Seq::<Seq<char>>::empty(),
    {
        let res = LogVisitor { fields: Vec::new() };
        proof {
            assert(res@ =~= Seq::<Seq<char>>::empty());
        }
        res
    }

    /// Records one field of the event.
    pub fn record_value(&mut self, field_name: &str, value: &str)
        ensures
            final(self)@ == old(self)@.push(field_text(field_name@, value@)),
    {
        let text = if same_text(field_name, "message") {
            value.to_owned()
        } else {
            let mut t = field_name.to_owned();
            t.append("=");
            t.append(value);
            t
        };
        self.fields.push(text);
        proof {
            assert(self@ =~= old(self)@.push(field_text(field_name@, value@)));
        }
    }

    /// The fields recorded so far, in their order.
    pub fn fields(&self) -> (res: &Vec<String>)
        ensures
            texts_view(res@) == self@,
    {
        &self.fields
    }

    /// The line for the event, given its level and target.
    pub fn event_line(&self, level: &str, target: &str) -> (res: String)
        ensures
            res@ == event_line(level@, target@, self@),
    {
        format_event_line(level, target, &self.fields)
    }
}

} // verus!
