//! Text input editing: the input buffer with a cursor kept as a byte
//! offset on a character boundary, as `String` editing expects.

use vstd::prelude::*;
use crate::state::App;
use crate::text::{
    byte_len, byte_len_of, byte_prefix, char_width, chars_of, is_boundary, lemma_byte_len_take_step,
    prefix_for_bytes, slice_from, slice_to, string_of, sub_chars, width_of,
};
use crate::types::InputMode;

verus! {

/// The cursor sits between two characters of the buffer, and there is room
/// to grow the buffer by one character.
pub open spec fn input_ok(buf: Seq<char>, cursor: nat) -> bool {
    is_boundary(buf, cursor) && byte_len(buf) + 4 <= usize::MAX
}

/// Characters before the cursor.
pub open spec fn before_cursor(buf: Seq<char>, cursor: nat) -> Seq<char> {
    slice_to(buf, cursor)
}

/// Characters from the cursor on.
pub open spec fn after_cursor(buf: Seq<char>, cursor: nat) -> Seq<char> {
    slice_from(buf, cursor)
}

proof fn lemma_boundary_split(buf: Seq<char>, cursor: nat)
    requires
        is_boundary(buf, cursor),
    ensures
        buf == before_cursor(buf, cursor) + after_cursor(buf, cursor),
        before_cursor(buf, cursor).len() <= buf.len(),
        byte_len(before_cursor(buf, cursor)) == cursor,
        before_cursor(buf, cursor) == buf.take(before_cursor(buf, cursor).len() as int),
{
    lemma_byte_prefix_is_take(buf, cursor);
    let k = byte_prefix(buf, cursor).len() as int;
    assert(buf =~= buf.take(k) + buf.skip(k));
}

proof fn lemma_byte_prefix_is_take(s: Seq<char>, k: nat)
    ensures
        byte_prefix(s, k).len() <= s.len(),
        byte_prefix(s, k) == s.take(byte_prefix(s, k).len() as int),
    decreases s.len(),
{
    if byte_len(s) <= k {
        assert(s.take(s.len() as int) =~= s);
    } else {
        let t = s.drop_last();
        lemma_byte_prefix_is_take(t, k);
        assert(t.take(byte_prefix(t, k).len() as int) =~= s.take(byte_prefix(t, k).len() as int));
    }
}

impl App {
    pub open spec fn input_ok(&self) -> bool {
        input_ok(self.input_buffer@, self.input_cursor as nat)
    }

    /// Insert a character at the cursor and move the cursor past it.
    pub fn input_insert(&mut self, ch: char)
        requires
            old(self).input_ok(),
        ensures
            ({
                let b = old(self).input_buffer@;
                let c = old(self).input_cursor as nat;
                &&& final(self).input_buffer@ == before_cursor(b, c) + seq![ch] + after_cursor(b, c)
                &&& final(self).input_cursor == c + char_width(ch)
                &&& *final(self) == (App {
                    input_buffer: final(self).input_buffer,
                    input_cursor: final(self).input_cursor,
                    ..*old(self)
                })
            }),
    {
        let v = chars_of(self.input_buffer.as_str());
        let (i, _) = prefix_for_bytes(&v, self.input_cursor);
        proof {
            lemma_boundary_split(v@, self.input_cursor as nat);
            lemma_byte_prefix_is_take(v@, self.input_cursor as nat);
        }
        let mut w = sub_chars(&v, 0, i);
        w.push(ch);
        let tail = sub_chars(&v, i, v.len());
        for j in 0..tail.len()
            invariant
                w@ == v@.take(i as int) + seq![ch] + tail@.take(j as int),
        {
            w.push(tail[j]);
            proof {
                assert(tail@.take(j + 1) =~= tail@.take(j as int).push(tail@[j as int]));
                assert(w@ =~= v@.take(i as int) + seq![ch] + tail@.take(j + 1));
            }
        }
        proof {
            assert(tail@.take(tail@.len() as int) =~= tail@);
            assert(v@.take(i as int) =~= v@.subrange(0, i as int));
            assert(tail@ =~= v@.skip(i as int));
        }
        self.input_buffer = string_of(&w);
        self.input_cursor = self.input_cursor + width_of(ch);
    }

    /// Delete the character before the cursor.
    pub fn input_backspace(&mut self)
        requires
            old(self).input_ok(),
        ensures
            ({
                let b = old(self).input_buffer@;
                let c = old(self).input_cursor as nat;
                let p = before_cursor(b, c);
                if c > 0 {
                    &&& final(self).input_buffer@ == p.drop_last() + after_cursor(b, c)
                    &&& final(self).input_cursor == c - char_width(p.last())
                    &&& *final(self) == (App {
                        input_buffer: final(self).input_buffer,
                        input_cursor: final(self).input_cursor,
                        ..*old(self)
                    })
                } else {
                    *final(self) == *old(self)
                }
            }),
    {
        if self.input_cursor == 0 {
            return ;
        }
        let v = chars_of(self.input_buffer.as_str());
        let (i, _) = prefix_for_bytes(&v, self.input_cursor);
        proof {
            lemma_boundary_split(v@, self.input_cursor as nat);
            lemma_byte_prefix_is_take(v@, self.input_cursor as nat);
            if i == 0 {
                assert(v@.take(0) =~= Seq::<char>::empty());
            }
            lemma_byte_len_take_step(v@, i - 1);
            assert(v@.take(i as int).drop_last() =~= v@.take(i - 1));
        }
        let w_prev = width_of(v[i - 1]);
        let mut w = sub_chars(&v, 0, i - 1);
        let tail = sub_chars(&v, i, v.len());
        for j in 0..tail.len()
            invariant
                w@ == v@.take(i - 1) + tail@.take(j as int),
        {
            w.push(tail[j]);
            proof {
                assert(tail@.take(j + 1) =~= tail@.take(j as int).push(tail@[j as int]));
                assert(w@ =~= v@.take(i - 1) + tail@.take(j + 1));
            }
        }
        proof {
            assert(tail@.take(tail@.len() as int) =~= tail@);
            assert(v@.take(i - 1) =~= v@.subrange(0, i - 1));
            assert(tail@ =~= v@.skip(i as int));
        }
        self.input_buffer = string_of(&w);
        self.input_cursor = self.input_cursor - w_prev;
    }

    /// Delete the character at the cursor.
    pub fn input_delete(&mut self)
        requires
            old(self).input_ok(),
        ensures
            ({
                let b = old(self).input_buffer@;
                let c = old(self).input_cursor as nat;
                let a = after_cursor(b, c);
                if a.len() > 0 {
                    &&& final(self).input_buffer@ == before_cursor(b, c) + a.drop_first()
                    &&& *final(self) == (App {
                        input_buffer: final(self).input_buffer,
                        ..*old(self)
                    })
                } else {
                    *final(self) == *old(self)
                }
            }),
    {
        let v = chars_of(self.input_buffer.as_str());
        let (i, _) = prefix_for_bytes(&v, self.input_cursor);
        proof {
            lemma_boundary_split(v@, self.input_cursor as nat);
            lemma_byte_prefix_is_take(v@, self.input_cursor as nat);
        }
        if i >= v.len() {
            return ;
        }
        let mut w = sub_chars(&v, 0, i);
        let tail = sub_chars(&v, i + 1, v.len());
        for j in 0..tail.len()
            invariant
                w@ == v@.take(i as int) + tail@.take(j as int),
        {
            w.push(tail[j]);
            proof {
                assert(tail@.take(j + 1) =~= tail@.take(j as int).push(tail@[j as int]));
                assert(w@ =~= v@.take(i as int) + tail@.take(j + 1));
            }
        }
        proof {
            assert(tail@.take(tail@.len() as int) =~= tail@);
            assert(v@.take(i as int) =~= v@.subrange(0, i as int));
            assert(tail@ =~= v@.skip(i as int).drop_first());
        }
        self.input_buffer = string_of(&w);
    }

    /// Move the cursor one character left.
    pub fn input_left(&mut self)
        requires
            old(self).input_ok(),
        ensures
            ({
                let b = old(self).input_buffer@;
                let c = old(self).input_cursor as nat;
                let p = before_cursor(b, c);
                &&& final(self).input_cursor == if c > 0 {
                    c - char_width(p.last())
                } else {
                    0
                }
                &&& *final(self) == (App { input_cursor: final(self).input_cursor, ..*old(self) })
            }),
    {
        if self.input_cursor == 0 {
            return ;
        }
        let v = chars_of(self.input_buffer.as_str());
        let (i, _) = prefix_for_bytes(&v, self.input_cursor);
        proof {
            lemma_boundary_split(v@, self.input_cursor as nat);
            lemma_byte_prefix_is_take(v@, self.input_cursor as nat);
            if i == 0 {
                assert(v@.take(0) =~= Seq::<char>::empty());
            }
            lemma_byte_len_take_step(v@, i - 1);
        }
        self.input_cursor = self.input_cursor - width_of(v[i - 1]);
    }

    /// Move the cursor one character right.
    pub fn input_right(&mut self)
        requires
            old(self).input_ok(),
        ensures
            ({
                let b = old(self).input_buffer@;
                let c = old(self).input_cursor as nat;
                let a = after_cursor(b, c);
                &&& final(self).input_cursor == if a.len() > 0 {
                    c + char_width(a[0])
                } else {
                    c
                }
                &&& *final(self) == (App { input_cursor: final(self).input_cursor, ..*old(self) })
            }),
    {
        let v = chars_of(self.input_buffer.as_str());
        let (i, _) = prefix_for_bytes(&v, self.input_cursor);
        proof {
            lemma_boundary_split(v@, self.input_cursor as nat);
            lemma_byte_prefix_is_take(v@, self.input_cursor as nat);
        }
        if i < v.len() {
            proof {
                lemma_byte_len_take_step(v@, i as int);
                crate::text::lemma_byte_len_mono(v@, i + 1, v@.len() as int);
                assert(v@.take(v@.len() as int) =~= v@);
            }
            self.input_cursor = self.input_cursor + width_of(v[i]);
        }
    }

    /// Empty the input.
    pub fn input_clear(&mut self)
        ensures
            final(self).input_buffer@.len() == 0,
            *final(self) == (App {
                input_buffer: final(self).input_buffer,
                input_cursor: 0,
                ..*old(self)
            }),
    {
        self.input_buffer = String::new();
        self.input_cursor = 0;
    }

    /// Start editing with the given text, the cursor at its end.
    pub fn start_input(&mut self, initial: &str)
        requires
            byte_len(initial@) + 4 <= usize::MAX,
        ensures
            final(self).input_buffer@ == initial@,
            final(self).input_cursor == byte_len(initial@),
            final(self).input_ok(),
            *final(self) == (App {
                input_mode: InputMode::Editing,
                input_buffer: final(self).input_buffer,
                input_cursor: final(self).input_cursor,
                ..*old(self)
            }),
    {
        self.input_mode = InputMode::Editing;
        let v = chars_of(initial);
        let n = byte_len_of(&v);
        self.input_buffer = string_of(&v);
        self.input_cursor = n;
        proof {
            assert(crate::text::byte_prefix(v@, n as nat) == v@);
        }
    }

    /// Stop editing and hand back what was typed.
    pub fn stop_input(&mut self) -> (val: String)
        ensures
            val == old(self).input_buffer,
            final(self).input_buffer@.len() == 0,
            *final(self) == (App {
                input_mode: InputMode::Normal,
                input_buffer: final(self).input_buffer,
                input_cursor: 0,
                ..*old(self)
            }),
    {
        self.input_mode = InputMode::Normal;
        let val = self.input_buffer.clone();
        self.input_clear();
        val
    }
}

/// Typing a character and deleting it with backspace gives back the text
/// and the cursor one had.
pub proof fn lemma_insert_then_backspace(b: Seq<char>, c: nat, ch: char)
    requires
        is_boundary(b, c),
    ensures
        ({
            let b2 = before_cursor(b, c) + seq![ch] + after_cursor(b, c);
            let c2 = c + char_width(ch);
            &&& is_boundary(b2, c2)
            &&& before_cursor(b2, c2) == before_cursor(b, c).push(ch)
            &&& after_cursor(b2, c2) == after_cursor(b, c)
            &&& c2 > 0
            &&& before_cursor(b2, c2).drop_last() + after_cursor(b2, c2) == b
            &&& c2 - char_width(before_cursor(b2, c2).last()) == c
        }),
{
    lemma_boundary_split(b, c);
    let p = before_cursor(b, c);
    let b2 = p + seq![ch] + after_cursor(b, c);
    let i = p.len() as int;
    assert(b2.take(i + 1) =~= p.push(ch));
    assert(p.push(ch).drop_last() =~= p);
    assert(byte_len(b2.take(i + 1)) == c + char_width(ch));
    if i + 1 < b2.len() {
        lemma_byte_len_take_step(b2, i + 1);
    }
    crate::text::lemma_byte_prefix_take(b2, c + char_width(ch), i + 1);
    assert(b2.skip(i + 1) =~= after_cursor(b, c));
    assert(p.push(ch).drop_last() + after_cursor(b, c) =~= b);
}

} // verus!
