//! The reporting harness that is wrapped around a script before it is
//! injected, and the escaping of the script inside it.

use vstd::prelude::*;
use vstd::string::StringExecFns;

verus! {

/// What one character of a script becomes inside the harness: a backslash
/// or a backtick gets a backslash in front, any other character stays.
pub open spec fn escaped_char(c: char) -> Seq<char> {
    if c == '\\' || c == '`' {
        seq!['\\', c]
    } else {
        seq![c]
    }
}

/// The escaped form of a script: each character escaped in turn. Nothing
/// but backslash and backtick is escaped; in particular a `${` of the script
/// stays as it is, and a literal between backticks reads it as a
/// substitution.
pub open spec fn escaped(script: Seq<char>) -> Seq<char>
    decreases script.len(),
{
    if script.len() == 0 {
        Seq::empty()
    } else {
        escaped(script.drop_last()) + escaped_char(script.last())
    }
}

/// How the receiving side reads escaped text that holds no substitution,
/// from left to right: a backslash stands for the character that follows it.
pub open spec fn unescaped(text: Seq<char>) -> Seq<char>
    decreases text.len(),
{
    if text.len() == 0 {
        Seq::empty()
    } else if text[0] == '\\' && text.len() >= 2 {
        seq![text[1]] + unescaped(text.skip(2))
    } else {
        seq![text[0]] + unescaped(text.skip(1))
    }
}

/// Where a literal between backticks ends: how many characters stand before
/// the first backtick that no backslash protects, reading from left to right.
/// There is no such place when the text runs out first.
pub open spec fn literal_length(text: Seq<char>) -> Option<int>
    decreases text.len(),
{
    if text.len() == 0 {
        None
    } else if text[0] == '`' {
        Some(0)
    } else if text[0] == '\\' {
        if text.len() >= 2 {
            match literal_length(text.skip(2)) {
                Some(n) => Some(n + 2),
                None => None,
            }
        } else {
            None
        }
    } else {
        match literal_length(text.skip(1)) {
            Some(n) => Some(n + 1),
            None => None,
        }
    }
}

/// Escaping goes character by character, so it distributes over
/// concatenation.
pub proof fn lemma_escaped_concat(a: Seq<char>, b: Seq<char>)
    ensures
        escaped(a + b) == escaped(a) + escaped(b),
    decreases b.len(),
{
    if b.len() == 0 {
        assert(a + b =~= a);
        assert(escaped(a) + escaped(b) =~= escaped(a));
    } else {
        lemma_escaped_concat(a, b.drop_last());
        assert((a + b).drop_last() =~= a + b.drop_last());
        assert((a + b).last() == b.last());
        assert(escaped(a + b) =~= escaped(a) + escaped(b));
    }
}

/// The escaped form of a script begins with the escaped form of its first
/// character.
proof fn lemma_escaped_front(script: Seq<char>)
    requires
        script.len() > 0,
    ensures
        escaped(script) == escaped_char(script[0]) + escaped(script.skip(1)),
{
    let head = seq![script[0]];
    assert(head + script.skip(1) =~= script);
    lemma_escaped_concat(head, script.skip(1));
    assert(head.drop_last() =~= Seq::<char>::empty());
    assert(escaped(head) =~= escaped_char(script[0])) by {
        reveal_with_fuel(escaped, 2);
    }
}

/// Reading back what was escaped gives the script again, whatever the script
/// holds.
pub proof fn lemma_escape_round_trip(script: Seq<char>)
    ensures
        unescaped(escaped(script)) == script,
    decreases script.len(),
{
    if script.len() > 0 {
        let c = script[0];
        let rest = script.skip(1);
        lemma_escaped_front(script);
        lemma_escape_round_trip(rest);
        let text = escaped(script);
        if c == '\\' || c == '`' {
            assert(text.skip(2) =~= escaped(rest));
        } else {
            assert(text.skip(1) =~= escaped(rest));
        }
        assert(seq![c] + rest =~= script);
    }
}

/// A literal that opens before the escaped script ends at the backtick that
/// is written behind it, and nowhere before, whatever the script holds and
/// whatever follows.
pub proof fn lemma_literal_ends_behind_script(script: Seq<char>, rest: Seq<char>)
    ensures
        literal_length(escaped(script) + seq!['`'] + rest) == Some(escaped(script).len() as int),
    decreases script.len(),
{
    let text = escaped(script) + seq!['`'] + rest;
    if script.len() == 0 {
        assert(text[0] == '`');
    } else {
        let c = script[0];
        let tail = script.skip(1);
        lemma_escaped_front(script);
        lemma_literal_ends_behind_script(tail, rest);
        let after = escaped(tail) + seq!['`'] + rest;
        if c == '\\' || c == '`' {
            assert(text[0] == '\\');
            assert(text.skip(2) =~= after);
        } else {
            assert(text[0] == c);
            assert(text.skip(1) =~= after);
        }
    }
}

/// `text` with a backslash put before every occurrence of `mark`.
pub open spec fn marked(text: Seq<char>, mark: char) -> Seq<char>
    decreases text.len(),
{
    if text.len() == 0 {
        Seq::empty()
    } else if text.last() == mark {
        marked(text.drop_last(), mark) + seq!['\\', mark]
    } else {
        marked(text.drop_last(), mark).push(text.last())
    }
}

/// Marking goes character by character, so it distributes over
/// concatenation.
pub proof fn lemma_marked_concat(a: Seq<char>, b: Seq<char>, mark: char)
    ensures
        marked(a + b, mark) == marked(a, mark) + marked(b, mark),
    decreases b.len(),
{
    if b.len() == 0 {
        assert(a + b =~= a);
        assert(marked(a, mark) + marked(b, mark) =~= marked(a, mark));
    } else {
        lemma_marked_concat(a, b.drop_last(), mark);
        assert((a + b).drop_last() =~= a + b.drop_last());
        assert((a + b).last() == b.last());
        assert(marked(a + b, mark) =~= marked(a, mark) + marked(b, mark));
    }
}

/// Escaping is the same as two passes over the script, in this order: first
/// every backslash is doubled, then every backtick gets a backslash in front.
pub proof fn lemma_escaped_in_two_passes(script: Seq<char>)
    ensures
        escaped(script) == marked(marked(script, '\\'), '`'),
    decreases script.len(),
{
    if script.len() > 0 {
        let c = script.last();
        let init = script.drop_last();
        lemma_escaped_in_two_passes(init);
        let one = if c == '\\' {
            seq!['\\', '\\']
        } else {
            seq![c]
        };
        assert(marked(script, '\\') =~= marked(init, '\\') + one);
        lemma_marked_concat(marked(init, '\\'), one, '`');
        assert(marked(one, '`') =~= escaped_char(c)) by {
            reveal_with_fuel(marked, 3);
            if c == '\\' {
                assert(one.drop_last() =~= seq!['\\']);
                assert(one.drop_last().drop_last() =~= Seq::<char>::empty());
            } else {
                assert(one.drop_last() =~= Seq::<char>::empty());
            }
        }
    }
}

/// Escapes a script for the harness.
pub fn escape_script(script: &str) -> (out: String)
    ensures
        out@ == escaped(script@),
{
    let mut out = String::new();
    assert(script@.take(0) =~= Seq::<char>::empty());
    for c in it: script.chars()
        invariant
            it.seq() == script@,
            out@ == escaped(script@.take(it.index() as int)),
    {
        proof {
            let read = script@.take(it.index() as int + 1);
            assert(read.drop_last() =~= script@.take(it.index() as int));
            assert(read.last() == c);
        }
        if c == '\\' || c == '`' {
            out.push('\\');
        }
        out.push(c);
        assert(out@ =~= escaped(script@.take(it.index() as int)) + escaped_char(c));
    }
    assert(script@.take(script@.len() as int) =~= script@);
    out
}

/// The harness up to the literal that holds the script.
pub const HARNESS_OPEN: &'static str = r#"(function () {
          try {
            const __source = "#;

/// From the literal that holds the script to the first place of the
/// identifier: the text of the literal is evaluated as an expression, the
/// value is serialized as JSON, or its string form where that fails, and
/// emitted as a `script-response` event if the page can emit events.
pub const HARNESS_EMIT_VALUE: &'static str = r#";
            const __value = (0, eval)('( ' + __source + ' )');
            let __json;
            try { __json = JSON.stringify(__value); }
            catch { __json = JSON.stringify(String(__value ?? "")); }

            if (window.__TAURI__?.event?.emit) {
              window.__TAURI__.event.emit('script-response', {
                id: '"#;

/// From there to the second place of the identifier: where no event can be
/// emitted, the identifier and the value are written to the console.
pub const HARNESS_LOG_VALUE: &'static str = r#"',
                value: __json
              });
            } else {
              console.log('TAURI_SCRIPT_RESPONSE (no event API)', '"#;

/// From there to the third place of the identifier: a script that throws is
/// reported with the string form of what it threw.
pub const HARNESS_EMIT_ERROR: &'static str = r#"', __json);
            }
          } catch (e) {
            const msg = e && e.toString ? e.toString() : 'Unknown error';
            if (window.__TAURI__?.event?.emit) {
              window.__TAURI__.event.emit('script-response', {
                id: '"#;

/// From there to the fourth place of the identifier: the error is written to
/// the console where no event can be emitted.
pub const HARNESS_LOG_ERROR: &'static str = r#"',
                error: msg
              });
            } else {
              console.log('TAURI_SCRIPT_ERROR (no event API)', '"#;

/// The end of the harness.
pub const HARNESS_CLOSE: &'static str = r#"', msg);
            }
          }
        })();"#;

/// The text that is injected for `script` under the identifier `id`. The
/// escaped script stands between two backticks, as a text literal whose value
/// the harness evaluates as an expression; the identifier stands in each of
/// its four places.
pub open spec fn harness_text(script: Seq<char>, id: Seq<char>) -> Seq<char> {
    HARNESS_OPEN@ + seq!['`'] + escaped(script) + seq!['`'] + HARNESS_EMIT_VALUE@ + id
        + HARNESS_LOG_VALUE@ + id + HARNESS_EMIT_ERROR@ + id + HARNESS_LOG_ERROR@ + id
        + HARNESS_CLOSE@
}

/// What follows the backtick that opens the script's literal in the harness.
pub open spec fn harness_behind_tick(script: Seq<char>, id: Seq<char>) -> Seq<char> {
    harness_text(script, id).skip(HARNESS_OPEN@.len() as int + 1)
}

/// The harness holds the script intact. The literal that the harness opens
/// ends at the backtick the harness wrote, so nothing of the script leaks
/// into the code around it, and reading the literal, substitutions apart,
/// gives the script back.
pub proof fn lemma_harness_holds_script(script: Seq<char>, id: Seq<char>)
    ensures
        harness_text(script, id)[HARNESS_OPEN@.len() as int] == '`',
        literal_length(harness_behind_tick(script, id)) == Some(escaped(script).len() as int),
        unescaped(harness_behind_tick(script, id).take(escaped(script).len() as int)) == script,
{
    let rest = HARNESS_EMIT_VALUE@ + id + HARNESS_LOG_VALUE@ + id + HARNESS_EMIT_ERROR@ + id
        + HARNESS_LOG_ERROR@ + id + HARNESS_CLOSE@;
    let behind = escaped(script) + seq!['`'] + rest;
    assert(harness_text(script, id) =~= HARNESS_OPEN@ + seq!['`'] + behind);
    assert(harness_behind_tick(script, id) =~= behind);
    lemma_literal_ends_behind_script(script, rest);
    lemma_escape_round_trip(script);
    assert(behind.take(escaped(script).len() as int) =~= escaped(script));
}

/// Wraps `script` in the harness that reports its result, or what it threw,
/// under the identifier `id`.
pub fn wrap_script(script: &str, id: &str) -> (wrapped: String)
    ensures
        wrapped@ == harness_text(script@, id@),
{
    let mut wrapped = String::from_str(HARNESS_OPEN);
    wrapped.push('`');
    assert(wrapped@ =~= HARNESS_OPEN@ + seq!['`']);
    wrapped.append(escape_script(script).as_str());
    wrapped.push('`');
    assert(wrapped@ =~= HARNESS_OPEN@ + seq!['`'] + escaped(script@) + seq!['`']);
    wrapped.append(HARNESS_EMIT_VALUE);
    wrapped.append(id);
    wrapped.append(HARNESS_LOG_VALUE);
    wrapped.append(id);
    wrapped.append(HARNESS_EMIT_ERROR);
    wrapped.append(id);
    wrapped.append(HARNESS_LOG_ERROR);
    wrapped.append(id);
    wrapped.append(HARNESS_CLOSE);
    wrapped
}

} // verus!
