//! Which templates a template includes, read from its text, and whether every
//! chain of inclusions ends. The engine follows a partial into the template of
//! that name without a limit, so a template that can reach itself, or reaches
//! a partial that cannot be read from the text, is not rendered.
//!
//! The text is read tag by tag without regard to comments, escapes and raw
//! blocks: more may be found than the engine includes, never less.
//!
//! A text is read in one of two ways. Read strictly, every partial has a
//! plain name and there is no decorator: a name can only stand for the
//! template of that name. Read otherwise, a template may bring texts with
//! it, the blocks of its partials and of its decorators, and include what it
//! was given as `@partial-block`; a name can then stand for such a text, so
//! these texts must hold no partial themselves. A partial is taken to stand
//! in such a text where a tag that brings one comes before it and the end of
//! a block after it.

use vstd::prelude::*;
use crate::string_map::StringMap;
use crate::text::chars_of;

verus! {

/// A character that may stand between the parts of a tag.
pub open spec fn is_space(c: char) -> bool {
    c == ' ' || c == '\t' || c == '\n' || c == '\r'
}

/// A character that may stand between the two braces that open a tag and the
/// mark that says what the tag is.
pub open spec fn is_lead(c: char) -> bool {
    is_space(c) || c == '~' || c == '#' || c == '{'
}

/// A character of a partial's plain name: a letter or digit of ASCII, `-`,
/// `_`, `/`, `.`, or any character beyond ASCII.
pub open spec fn is_name_char(c: char) -> bool {
    ||| ('a' <= c && c <= 'z')
    ||| ('A' <= c && c <= 'Z')
    ||| ('0' <= c && c <= '9')
    ||| c == '-'
    ||| c == '_'
    ||| c == '/'
    ||| c == '.'
    ||| c >= '\u{80}'
}

/// The first position from `i` on that holds no lead character.
pub open spec fn past_lead(s: Seq<char>, i: int) -> int
    decreases s.len() - i,
{
    if 0 <= i < s.len() && is_lead(s[i]) {
        past_lead(s, i + 1)
    } else {
        i
    }
}

/// The first position from `i` on that holds no space.
pub open spec fn past_space(s: Seq<char>, i: int) -> int
    decreases s.len() - i,
{
    if 0 <= i < s.len() && is_space(s[i]) {
        past_space(s, i + 1)
    } else {
        i
    }
}

/// The first position from `i` on that holds no character of a name.
pub open spec fn past_name(s: Seq<char>, i: int) -> int
    decreases s.len() - i,
{
    if 0 <= i < s.len() && is_name_char(s[i]) {
        past_name(s, i + 1)
    } else {
        i
    }
}

/// The name by which a template includes the block that it was given.
pub const PARTIAL_BLOCK: &'static str = "@partial-block";

/// What a tag says about the inclusion of templates.
pub enum Tag {
    /// A partial with a plain name: the template of that name is included.
    /// A partial with a block brings a text of its own, which stands in for
    /// the template where there is none, and which the template can include
    /// as `@partial-block`.
    Partial { name: Seq<char>, block: bool },
    /// A partial named `@partial-block`: the block that was given is
    /// included.
    Given { block: bool },
    /// A partial whose name is computed, quoted or otherwise not plain: what
    /// is included cannot be read from the text.
    Unreadable,
    /// A decorator, which may name a text of its own for later inclusion.
    Decorator,
    /// The end of a block.
    Close,
}

/// Whether a `#` stands among the lead characters from `i` on.
pub open spec fn lead_has_hash(s: Seq<char>, i: int) -> bool
    decreases s.len() - i,
{
    if 0 <= i < s.len() && is_lead(s[i]) {
        s[i] == '#' || lead_has_hash(s, i + 1)
    } else {
        false
    }
}

/// Whether a name ends at `i`: the text ends there, or a space, `}` or `~`
/// follows.
pub open spec fn name_ends_at(s: Seq<char>, i: int) -> bool {
    i >= s.len() || is_space(s[i]) || s[i] == '}' || s[i] == '~'
}

/// The tag that `s` holds at `i`, if any. Two braces open a tag; after lead
/// characters, `*` marks a decorator, `/` the end of a block and `>` a
/// partial, whose name follows after spaces; a `#` among the lead characters
/// gives the partial a block.
pub open spec fn tag_at(s: Seq<char>, i: int) -> Option<Tag> {
    let mark = past_lead(s, i + 2);
    let block = lead_has_hash(s, i + 2);
    let start = past_space(s, mark + 1);
    let end = past_name(s, start);
    let given_end = past_name(s, start + 1);
    if !(0 <= i && i + 1 < s.len() && s[i] == '{' && s[i + 1] == '{') {
        None
    } else if mark >= s.len() {
        None
    } else if s[mark] == '*' {
        Some(Tag::Decorator)
    } else if s[mark] == '/' {
        Some(Tag::Close)
    } else if s[mark] == '>' {
        if end > start {
            Some(Tag::Partial { name: s.subrange(start, end), block })
        } else if start < s.len() && s[start] == '@' && s.subrange(start, given_end)
            == PARTIAL_BLOCK@ && name_ends_at(s, given_end) {
            Some(Tag::Given { block })
        } else {
            Some(Tag::Unreadable)
        }
    } else {
        None
    }
}

/// The tags of `s` from `i` on, in order.
pub open spec fn tags_from(s: Seq<char>, i: int) -> Seq<Tag>
    decreases s.len() - i,
{
    if i < 0 || i >= s.len() {
        Seq::empty()
    } else {
        match tag_at(s, i) {
            Some(tag) => seq![tag] + tags_from(s, i + 1),
            None => tags_from(s, i + 1),
        }
    }
}

/// The tags of the template text `source`, in order.
pub open spec fn tags(source: Seq<char>) -> Seq<Tag> {
    tags_from(source, 0)
}

/// The names that `tags` include where every partial has a plain name and
/// there is no decorator, so that a name can only stand for the template of
/// that name; `None` where that is not so.
pub open spec fn plain_names(tags: Seq<Tag>) -> Option<Seq<Seq<char>>>
    decreases tags.len(),
{
    if tags.len() == 0 {
        Some(Seq::empty())
    } else {
        match (tags.first(), plain_names(tags.drop_first())) {
            (Tag::Partial { name, .. }, Some(rest)) => Some(seq![name] + rest),
            (Tag::Close, rest) => rest,
            _ => None,
        }
    }
}

/// Whether a block ends among `tags`.
pub open spec fn has_close(tags: Seq<Tag>) -> bool
    decreases tags.len(),
{
    if tags.len() == 0 {
        false
    } else {
        tags.first() is Close || has_close(tags.drop_first())
    }
}

/// The names that `tags` include where the texts that a template brings with
/// it, the blocks of partials and of decorators, hold no partial: a name can
/// then stand for such a text, from which nothing is included, or for the
/// template of that name. A partial may stand in such a text where it comes
/// after a tag that brings one and before the end of a block; `opened` says
/// whether such a tag came before `tags`. `None` where a partial does so, or
/// cannot be read.
pub open spec fn leafy_names(tags: Seq<Tag>, opened: bool) -> Option<Seq<Seq<char>>>
    decreases tags.len(),
{
    if tags.len() == 0 {
        Some(Seq::empty())
    } else {
        match tags.first() {
            Tag::Unreadable => None,
            Tag::Close => leafy_names(tags.drop_first(), opened),
            Tag::Decorator => leafy_names(tags.drop_first(), true),
            Tag::Partial { name, block } => if opened && has_close(tags.drop_first()) {
                None
            } else {
                match leafy_names(tags.drop_first(), opened || block) {
                    Some(rest) => Some(seq![name] + rest),
                    None => None,
                }
            },
            Tag::Given { block } => if opened && has_close(tags.drop_first()) {
                None
            } else {
                match leafy_names(tags.drop_first(), opened || block) {
                    Some(rest) => Some(seq![PARTIAL_BLOCK@] + rest),
                    None => None,
                }
            },
        }
    }
}

/// The names of the templates that the template text `source` includes, read
/// in one of two ways; `None` where it cannot be read in that way. Read
/// strictly, every partial has a plain name and there is no decorator. Read
/// otherwise, decorators and `@partial-block` may stand, but no partial may
/// stand in a text that a template brings with it.
pub open spec fn references(strict: bool, source: Seq<char>) -> Option<Seq<Seq<char>>> {
    if strict {
        plain_names(tags(source))
    } else {
        leafy_names(tags(source), false)
    }
}

/// Whether every chain of inclusions that starts at the template `name` ends
/// within `fuel` templates, all of them read in one way. A name that
/// `templates` does not hold ends the chain.
pub open spec fn chain_ends(
    strict: bool,
    templates: Map<Seq<char>, Seq<char>>,
    name: Seq<char>,
    fuel: nat,
) -> bool
    decreases fuel,
{
    if !templates.contains_key(name) {
        true
    } else if fuel == 0 {
        false
    } else {
        match references(strict, templates[name]) {
            None => false,
            Some(names) => forall|i: int|
                0 <= i < names.len() ==> chain_ends(
                    strict,
                    templates,
                    #[trigger] names[i],
                    (fuel - 1) as nat,
                ),
        }
    }
}

/// Whether the chains from `name` end within as many templates as there are,
/// all of them read in one way: no template that `name` includes, directly or
/// through others, includes itself, and each can be read.
pub open spec fn template_ends(
    strict: bool,
    templates: Map<Seq<char>, Seq<char>>,
    name: Seq<char>,
) -> bool {
    chain_ends(strict, templates, name, templates.len())
}

/// Whether the inclusions of the template text `source` can be read in one
/// way and every chain from them ends.
pub open spec fn source_ends(
    strict: bool,
    templates: Map<Seq<char>, Seq<char>>,
    source: Seq<char>,
) -> bool {
    references(strict, source) matches Some(names) && forall|i: int|
        0 <= i < names.len() ==> template_ends(strict, templates, #[trigger] names[i])
}

/// Whether the rendering of the template `name` ends: its chains of
/// inclusions end, read in one of the two ways.
pub open spec fn template_is_finite(templates: Map<Seq<char>, Seq<char>>, name: Seq<char>) -> bool {
    template_ends(true, templates, name) || template_ends(false, templates, name)
}

/// Whether the inclusions of the template text `source` can be read, in one
/// of the two ways.
pub open spec fn source_is_readable(source: Seq<char>) -> bool {
    references(true, source) is Some || references(false, source) is Some
}

/// Whether the rendering of the template text `source` ends: its chains of
/// inclusions end, read in one of the two ways.
pub open spec fn source_is_finite(templates: Map<Seq<char>, Seq<char>>, source: Seq<char>) -> bool {
    source_ends(true, templates, source) || source_ends(false, templates, source)
}

/// Two templates that include each other never end, however long the chain
/// may be and however they are read; with `a` and `b` the same, neither does
/// a template that includes itself.
pub proof fn circle_never_ends(
    strict: bool,
    templates: Map<Seq<char>, Seq<char>>,
    a: Seq<char>,
    b: Seq<char>,
    fuel: nat,
)
    requires
        templates.contains_key(a),
        templates.contains_key(b),
        references(strict, templates[a]) matches Some(names) && names.contains(b),
        references(strict, templates[b]) matches Some(names) && names.contains(a),
    ensures
        !chain_ends(strict, templates, a, fuel),
        !chain_ends(strict, templates, b, fuel),
    decreases fuel,
{
    if fuel > 0 {
        circle_never_ends(strict, templates, a, b, (fuel - 1) as nat);
        let of_a = references(strict, templates[a])->0;
        let of_b = references(strict, templates[b])->0;
        let i = choose|i: int| 0 <= i < of_a.len() && of_a[i] == b;
        let j = choose|j: int| 0 <= j < of_b.len() && of_b[j] == a;
        assert(!chain_ends(strict, templates, of_a[i], (fuel - 1) as nat));
        assert(!chain_ends(strict, templates, of_b[j], (fuel - 1) as nat));
    }
}

/// Each name by its characters.
pub open spec fn texts(names: Seq<String>) -> Seq<Seq<char>> {
    names.map_values(|name: String| name@)
}

/// The names by their characters, where there are any.
pub open spec fn optional_texts(names: Option<Vec<String>>) -> Option<Seq<Seq<char>>> {
    match names {
        Some(names) => Some(texts(names@)),
        None => None,
    }
}

/// A tag as it was found in a text.
#[derive(Debug)]
pub enum Found {
    Partial { name: String, block: bool },
    Given { block: bool },
    Unreadable,
    Decorator,
    Close,
}

impl View for Found {
    type V = Tag;

    open spec fn view(&self) -> Tag {
        match *self {
            Found::Partial { name, block } => Tag::Partial { name: name@, block },
            Found::Given { block } => Tag::Given { block },
            Found::Unreadable => Tag::Unreadable,
            Found::Decorator => Tag::Decorator,
            Found::Close => Tag::Close,
        }
    }
}

/// Each tag that was found, as a tag.
pub open spec fn found_tags(found: Seq<Found>) -> Seq<Tag> {
    found.map_values(|tag: Found| tag@)
}

fn lead(c: char) -> (r: bool)
    ensures
        r == is_lead(c),
{
    c == ' ' || c == '\t' || c == '\n' || c == '\r' || c == '~' || c == '#' || c == '{'
}

fn space(c: char) -> (r: bool)
    ensures
        r == is_space(c),
{
    c == ' ' || c == '\t' || c == '\n' || c == '\r'
}

fn name_char(c: char) -> (r: bool)
    ensures
        r == is_name_char(c),
{
    ('a' <= c && c <= 'z') || ('A' <= c && c <= 'Z') || ('0' <= c && c <= '9') || c == '-' || c
        == '_' || c == '/' || c == '.' || c >= '\u{80}'
}

fn skip_lead(chars: &Vec<char>, from: usize) -> (r: (usize, bool))
    requires
        from <= chars.len(),
    ensures
        r.0 == past_lead(chars@, from as int),
        r.1 == lead_has_hash(chars@, from as int),
        from <= r.0 <= chars.len(),
{
    let mut i: usize = from;
    let mut hash: bool = false;
    while i < chars.len() && lead(chars[i])
        invariant
            from <= i <= chars.len(),
            past_lead(chars@, from as int) == past_lead(chars@, i as int),
            lead_has_hash(chars@, from as int) == (hash || lead_has_hash(chars@, i as int)),
        decreases chars.len() - i,
    {
        if chars[i] == '#' {
            hash = true;
        }
        i += 1;
    }
    (i, hash)
}

fn skip_space(chars: &Vec<char>, from: usize) -> (r: usize)
    requires
        from <= chars.len(),
    ensures
        r == past_space(chars@, from as int),
        from <= r <= chars.len(),
{
    let mut i: usize = from;
    while i < chars.len() && space(chars[i])
        invariant
            from <= i <= chars.len(),
            past_space(chars@, from as int) == past_space(chars@, i as int),
        decreases chars.len() - i,
    {
        i += 1;
    }
    i
}

fn skip_name(chars: &Vec<char>, from: usize) -> (r: usize)
    requires
        from <= chars.len(),
    ensures
        r == past_name(chars@, from as int),
        from <= r <= chars.len(),
{
    let mut i: usize = from;
    while i < chars.len() && name_char(chars[i])
        invariant
            from <= i <= chars.len(),
            past_name(chars@, from as int) == past_name(chars@, i as int),
        decreases chars.len() - i,
    {
        i += 1;
    }
    i
}

/// Whether `chars` holds `word` from `from` to `to`.
fn holds_word(chars: &Vec<char>, from: usize, to: usize, word: &Vec<char>) -> (r: bool)
    requires
        from <= to <= chars.len(),
    ensures
        r == (chars@.subrange(from as int, to as int) == word@),
{
    if to - from != word.len() {
        return false;
    }
    let mut i: usize = 0;
    while i < word.len()
        invariant
            i <= word.len(),
            from <= to <= chars.len(),
            to - from == word.len(),
            forall|j: int| 0 <= j < i ==> chars@[from + j] == word@[j],
        decreases word.len() - i,
    {
        if chars[from + i] != word[i] {
            assert(chars@.subrange(from as int, to as int)[i as int] != word@[i as int]);
            return false;
        }
        i += 1;
    }
    assert(chars@.subrange(from as int, to as int) =~= word@);
    true
}

/// The tag that `source` holds at `i`, if any.
fn find_tag(source: &str, chars: &Vec<char>, i: usize) -> (r: Option<Found>)
    requires
        chars@ == source@,
        i < chars.len(),
    ensures
        match r {
            Some(found) => tag_at(source@, i as int) == Some(found@),
            None => tag_at(source@, i as int) is None,
        },
{
    let n: usize = chars.len();
    if !(i + 1 < n && chars[i] == '{' && chars[i + 1] == '{') {
        return None;
    }
    let (mark, block) = skip_lead(chars, i + 2);
    if mark >= n {
        return None;
    }
    if chars[mark] == '*' {
        return Some(Found::Decorator);
    }
    if chars[mark] == '/' {
        return Some(Found::Close);
    }
    if chars[mark] != '>' {
        return None;
    }
    let start = skip_space(chars, mark + 1);
    let end = skip_name(chars, start);
    if end > start {
        let name = source.substring_char(start, end).to_owned();
        return Some(Found::Partial { name, block });
    }
    if start < n && chars[start] == '@' {
        let given_end = skip_name(chars, start + 1);
        let word = chars_of(PARTIAL_BLOCK);
        let ends: bool = given_end >= n || space(chars[given_end]) || chars[given_end] == '}'
            || chars[given_end] == '~';
        if holds_word(chars, start, given_end, &word) && ends {
            return Some(Found::Given { block });
        }
    }
    Some(Found::Unreadable)
}

/// The tags of the template text `source`, in order.
pub fn find_tags(source: &str) -> (r: Vec<Found>)
    ensures
        found_tags(r@) == tags(source@),
{
    let chars = chars_of(source);
    let n: usize = chars.len();
    let mut found: Vec<Found> = Vec::new();
    let mut i: usize = 0;
    assert(found_tags(found@) + tags_from(source@, 0) =~= tags_from(source@, 0));
    while i < n
        invariant
            i <= n,
            n == chars@.len(),
            chars@ == source@,
            tags(source@) == found_tags(found@) + tags_from(source@, i as int),
        decreases n - i,
    {
        let ghost before = found_tags(found@);
        match find_tag(source, &chars, i) {
            Some(tag) => {
                let ghost seen = tag@;
                found.push(tag);
                proof {
                    assert(found_tags(found@) =~= before + seq![seen]);
                    assert(before + (seq![seen] + tags_from(source@, i + 1)) =~= found_tags(found@)
                        + tags_from(source@, i + 1));
                }
            },
            None => {},
        }
        i += 1;
    }
    proof {
        assert(found_tags(found@) + Seq::<Tag>::empty() =~= found_tags(found@));
    }
    found
}

/// The names that the tags include, read strictly.
fn plain(found: &Vec<Found>) -> (r: Option<Vec<String>>)
    ensures
        optional_texts(r) == plain_names(found_tags(found@)),
{
    let ghost all = found_tags(found@);
    let mut names: Vec<String> = Vec::new();
    let mut i: usize = 0;
    proof {
        assert(all.skip(0) =~= all);
        if plain_names(all) is Some {
            assert(texts(names@) + plain_names(all)->0 =~= plain_names(all)->0);
        }
    }
    while i < found.len()
        invariant
            i <= found.len(),
            all == found_tags(found@),
            plain_names(all) == match plain_names(all.skip(i as int)) {
                Some(rest) => Some(texts(names@) + rest),
                None => None,
            },
        decreases found.len() - i,
    {
        let ghost before = texts(names@);
        let ghost left = all.skip(i as int);
        assert(left.first() == found@[i as int]@);
        assert(left.drop_first() =~= all.skip(i + 1));
        match &found[i] {
            Found::Partial { name, .. } => {
                names.push(name.clone());
                proof {
                    assert(texts(names@) =~= before + seq![name@]);
                    if plain_names(all.skip(i + 1)) is Some {
                        let rest = plain_names(all.skip(i + 1))->0;
                        assert(before + (seq![name@] + rest) =~= texts(names@) + rest);
                    }
                }
            },
            Found::Close => {},
            _ => {
                return None;
            },
        }
        i += 1;
    }
    proof {
        assert(all.skip(all.len() as int) =~= Seq::<Tag>::empty());
        assert(texts(names@) + Seq::<Seq<char>>::empty() =~= texts(names@));
    }
    Some(names)
}

/// For each tag, whether a block ends after it.
fn closes_after(found: &Vec<Found>) -> (r: Vec<bool>)
    ensures
        r@.len() == found@.len(),
        forall|i: int|
            0 <= i < r@.len() ==> #[trigger] r@[i] == has_close(found_tags(found@).skip(i + 1)),
{
    let ghost all = found_tags(found@);
    let n: usize = found.len();
    let mut r: Vec<bool> = Vec::new();
    let mut i: usize = 0;
    while i < n
        invariant
            i <= n,
            n == found@.len(),
            r@.len() == i,
        decreases n - i,
    {
        r.push(false);
        i += 1;
    }
    let mut later: bool = false;
    let mut k: usize = n;
    assert(all.skip(n as int) =~= Seq::<Tag>::empty());
    while k > 0
        invariant
            k <= n,
            n == found@.len(),
            r@.len() == n,
            all == found_tags(found@),
            later == has_close(all.skip(k as int)),
            forall|i: int| k <= i < n ==> #[trigger] r@[i] == has_close(all.skip(i + 1)),
        decreases k,
    {
        k -= 1;
        r.set(k, later);
        let ghost left = all.skip(k as int);
        assert(left.first() == found@[k as int]@);
        assert(left.drop_first() =~= all.skip(k + 1));
        match &found[k] {
            Found::Close => {
                later = true;
            },
            _ => {},
        }
    }
    r
}

/// The names that the tags include, read so that a template may bring texts
/// with it.
fn leafy(found: &Vec<Found>) -> (r: Option<Vec<String>>)
    ensures
        optional_texts(r) == leafy_names(found_tags(found@), false),
{
    let ghost all = found_tags(found@);
    let later = closes_after(found);
    let mut names: Vec<String> = Vec::new();
    let mut opened: bool = false;
    let mut i: usize = 0;
    proof {
        assert(all.skip(0) =~= all);
        if leafy_names(all, false) is Some {
            assert(texts(names@) + leafy_names(all, false)->0 =~= leafy_names(all, false)->0);
        }
    }
    while i < found.len()
        invariant
            i <= found.len(),
            all == found_tags(found@),
            later@.len() == found@.len(),
            forall|k: int|
                0 <= k < later@.len() ==> #[trigger] later@[k] == has_close(all.skip(k + 1)),
            leafy_names(all, false) == match leafy_names(all.skip(i as int), opened) {
                Some(rest) => Some(texts(names@) + rest),
                None => None,
            },
        decreases found.len() - i,
    {
        let ghost before = texts(names@);
        let ghost left = all.skip(i as int);
        assert(left.first() == found@[i as int]@);
        assert(left.drop_first() =~= all.skip(i + 1));
        let inside: bool = opened && later[i];
        match &found[i] {
            Found::Unreadable => {
                return None;
            },
            Found::Close => {},
            Found::Decorator => {
                opened = true;
            },
            Found::Partial { name, block } => {
                if inside {
                    return None;
                }
                names.push(name.clone());
                opened = opened || *block;
                proof {
                    assert(texts(names@) =~= before + seq![name@]);
                    if leafy_names(all.skip(i + 1), opened) is Some {
                        let rest = leafy_names(all.skip(i + 1), opened)->0;
                        assert(before + (seq![name@] + rest) =~= texts(names@) + rest);
                    }
                }
            },
            Found::Given { block } => {
                if inside {
                    return None;
                }
                names.push(PARTIAL_BLOCK.to_owned());
                opened = opened || *block;
                proof {
                    assert(texts(names@) =~= before + seq![PARTIAL_BLOCK@]);
                    if leafy_names(all.skip(i + 1), opened) is Some {
                        let rest = leafy_names(all.skip(i + 1), opened)->0;
                        assert(before + (seq![PARTIAL_BLOCK@] + rest) =~= texts(names@) + rest);
                    }
                }
            },
        }
        i += 1;
    }
    proof {
        assert(all.skip(all.len() as int) =~= Seq::<Tag>::empty());
        assert(texts(names@) + Seq::<Seq<char>>::empty() =~= texts(names@));
    }
    Some(names)
}

/// The names of the templates that the template text `source` includes, in
/// order, read strictly or not; `None` where it cannot be read in that way.
pub fn partial_names(strict: bool, source: &str) -> (r: Option<Vec<String>>)
    ensures
        optional_texts(r) == references(strict, source@),
{
    let found = find_tags(source);
    if strict {
        plain(&found)
    } else {
        leafy(&found)
    }
}

/// What is known of the chains after some rounds: for each template of the
/// listing, whether its chains end within `fuel` templates.
pub open spec fn marks_hold(strict: bool, sources: StringMap, marks: Seq<bool>, fuel: nat) -> bool {
    &&& marks.len() == sources.listing().len()
    &&& forall|i: int|
        0 <= i < marks.len() ==> #[trigger] marks[i] == chain_ends(
            strict,
            sources@,
            sources.listing()[i].0@,
            fuel,
        )
}

/// One more round: whether the chains of the template at `index` end within
/// one template more than `marks` speaks of.
fn next_mark(
    strict: bool,
    sources: &StringMap,
    included: &Vec<Option<Vec<String>>>,
    marks: &Vec<bool>,
    index: usize,
    Ghost(fuel): Ghost<nat>,
) -> (r: bool)
    requires
        marks_hold(strict, *sources, marks@, fuel),
        included@.len() == sources.listing().len(),
        index < included@.len(),
        forall|i: int|
            0 <= i < included@.len() ==> optional_texts(#[trigger] included@[i]) == references(
                strict,
                sources.listing()[i].1@,
            ),
    ensures
        r == chain_ends(strict, sources@, sources.listing()[index as int].0@, (fuel + 1) as nat),
{
    let entry = sources.entry(index);
    let ghost name = sources.listing()[index as int].0@;
    assert(optional_texts(included@[index as int]) == references(strict, sources@[name]));
    match &included[index] {
        None => false,
        Some(names) => {
            let ghost wanted = references(strict, sources@[name])->0;
            assert(wanted == texts(names@));
            let mut t: usize = 0;
            while t < names.len()
                invariant
                    t <= names.len(),
                    wanted == texts(names@),
                    sources@.contains_key(name),
                    index < sources.listing().len(),
                    name == sources.listing()[index as int].0@,
                    references(strict, sources@[name]) == Some(wanted),
                    marks_hold(strict, *sources, marks@, fuel),
                    forall|k: int|
                        0 <= k < t ==> chain_ends(strict, sources@, #[trigger] wanted[k], fuel),
                decreases names.len() - t,
            {
                assert(wanted[t as int] == names@[t as int]@);
                let ends = match sources.index_of(names[t].as_str()) {
                    Some(j) => marks[j],
                    None => true,
                };
                if !ends {
                    assert(!chain_ends(strict, sources@, wanted[t as int], fuel));
                    assert(0 <= t < wanted.len());
                    proof {
                        let more = (fuel + 1) as nat;
                        assert((more - 1) as nat == fuel);
                        if chain_ends(strict, sources@, name, more) {
                            let listed = references(strict, sources@[name])->0;
                            assert(listed == wanted);
                            assert(chain_ends(strict, sources@, listed[t as int], (more - 1) as nat));
                        }
                    }
                    return false;
                }
                t += 1;
            }
            assert(((fuel + 1) - 1) as nat == fuel);
            assert(chain_ends(strict, sources@, name, (fuel + 1) as nat));
            true
        },
    }
}

/// For each template of `sources`, in the order of its listing, whether its
/// chains of inclusions end, all templates read strictly or not.
pub fn ending_templates(strict: bool, sources: &StringMap) -> (marks: Vec<bool>)
    ensures
        marks@.len() == sources.listing().len(),
        forall|i: int|
            0 <= i < marks@.len() ==> #[trigger] marks@[i] == template_ends(
                strict,
                sources@,
                sources.listing()[i].0@,
            ),
{
    let n: usize = sources.len();
    let mut included: Vec<Option<Vec<String>>> = Vec::new();
    let mut marks: Vec<bool> = Vec::new();
    let mut i: usize = 0;
    while i < n
        invariant
            i <= n,
            n == sources.listing().len(),
            included@.len() == i,
            marks@.len() == i,
            forall|k: int|
                0 <= k < i ==> optional_texts(#[trigger] included@[k]) == references(
                    strict,
                    sources.listing()[k].1@,
                ),
            forall|k: int| 0 <= k < i ==> !(#[trigger] marks@[k]),
        decreases n - i,
    {
        let entry = sources.entry(i);
        included.push(partial_names(strict, entry.1.as_str()));
        marks.push(false);
        i += 1;
    }
    proof {
        use_type_invariant(sources);
    }
    assert(marks_hold(strict, *sources, marks@, 0)) by {
        assert forall|k: int| 0 <= k < marks@.len() implies #[trigger] marks@[k] == chain_ends(
            strict,
            sources@,
            sources.listing()[k].0@,
            0,
        ) by {
            sources.listing_holds(k);
        }
    }
    let mut round: usize = 0;
    while round < n
        invariant
            round <= n,
            n == sources.listing().len(),
            n == sources@.len(),
            included@.len() == n,
            marks_hold(strict, *sources, marks@, round as nat),
            forall|k: int|
                0 <= k < n ==> optional_texts(#[trigger] included@[k]) == references(
                    strict,
                    sources.listing()[k].1@,
                ),
        decreases n - round,
    {
        let mut next: Vec<bool> = Vec::new();
        let mut k: usize = 0;
        while k < n
            invariant
                k <= n,
                n == sources.listing().len(),
                included@.len() == n,
                next@.len() == k,
                marks_hold(strict, *sources, marks@, round as nat),
                forall|j: int|
                    0 <= j < n ==> optional_texts(#[trigger] included@[j]) == references(
                        strict,
                        sources.listing()[j].1@,
                    ),
                forall|j: int|
                    0 <= j < k ==> #[trigger] next@[j] == chain_ends(
                        strict,
                        sources@,
                        sources.listing()[j].0@,
                        (round + 1) as nat,
                    ),
            decreases n - k,
        {
            let mark = next_mark(strict, sources, &included, &marks, k, Ghost(round as nat));
            next.push(mark);
            k += 1;
        }
        marks = next;
        round += 1;
    }
    marks
}

/// Whether the chains of inclusions from the templates `names` end, all
/// templates read strictly or not.
pub fn names_end(strict: bool, sources: &StringMap, names: &Vec<String>) -> (r: bool)
    ensures
        r == forall|i: int|
            0 <= i < names@.len() ==> template_ends(strict, sources@, (#[trigger] names@[i])@),
{
    let marks = ending_templates(strict, sources);
    let mut i: usize = 0;
    while i < names.len()
        invariant
            i <= names.len(),
            marks@.len() == sources.listing().len(),
            forall|j: int|
                0 <= j < marks@.len() ==> #[trigger] marks@[j] == template_ends(
                    strict,
                    sources@,
                    sources.listing()[j].0@,
                ),
            forall|k: int|
                0 <= k < i ==> template_ends(strict, sources@, (#[trigger] names@[k])@),
        decreases names.len() - i,
    {
        let ends = match sources.index_of(names[i].as_str()) {
            Some(j) => marks[j],
            None => true,
        };
        if !ends {
            assert(!template_ends(strict, sources@, names@[i as int]@));
            return false;
        }
        i += 1;
    }
    true
}

/// Whether the inclusions of the template text `source` can be read and
/// every chain from them ends, all texts read strictly or not.
pub fn text_ends(strict: bool, sources: &StringMap, source: &str) -> (r: bool)
    ensures
        r == source_ends(strict, sources@, source@),
{
    match partial_names(strict, source) {
        None => false,
        Some(names) => {
            let r = names_end(strict, sources, &names);
            proof {
                let wanted = references(strict, source@)->0;
                assert(wanted == texts(names@));
                assert forall|i: int| 0 <= i < wanted.len() implies wanted[i] == names@[i]@ by {}
                if r {
                    assert forall|i: int| 0 <= i < wanted.len() implies template_ends(
                        strict,
                        sources@,
                        #[trigger] wanted[i],
                    ) by {
                        assert(template_ends(strict, sources@, names@[i]@));
                    }
                } else {
                    if source_ends(strict, sources@, source@) {
                        assert forall|i: int| 0 <= i < names@.len() implies template_ends(
                            strict,
                            sources@,
                            (#[trigger] names@[i])@,
                        ) by {
                            assert(template_ends(strict, sources@, wanted[i]));
                        }
                    }
                }
            }
            r
        },
    }
}

/// Whether the chains of inclusions from the template `name` end, all
/// templates read strictly or not.
pub fn name_ends(strict: bool, sources: &StringMap, name: &str) -> (r: bool)
    ensures
        r == template_ends(strict, sources@, name@),
{
    let marks = ending_templates(strict, sources);
    match sources.index_of(name) {
        Some(j) => marks[j],
        None => true,
    }
}

} // verus!
