//! The on-disk format of a claim record: how it is written and read back.

use crate::identity::{Compat, Identity, Run};
use crate::paths::{path_of, path_text, text_of};
use crate::record::{MalformedRecord, Record, Tenant};
use crate::text::{
    blank, characters, decimal, find, is_trimmed, law_trimming_takes_the_white_space_around,
    lemma_decimal_is_read_back, lemma_lines_part, lemma_number_round_trip, lemma_one_line,
    lemma_position_bounds, lemma_position_is, lemma_trim_end_is_a_start,
    lemma_trim_start_is_an_end, lemma_trim_start_padded, lemma_trimmed, lines, number_spelled,
    parse_number, position, push_decimal, spells, trim, trim_end, trim_start, trimmed, white_space,
};
use std::path::PathBuf;
use vstd::prelude::*;

verus! {

/// The line that states one fact.
pub open spec fn fact_line(key: Seq<char>, value: Seq<char>) -> Seq<char> {
    key + " = "@ + value
}

/// `lines` one after the other, a newline behind each.
pub open spec fn unlines(lines: Seq<Seq<char>>) -> Seq<char>
    decreases lines.len(),
{
    if lines.len() == 0 {
        Seq::empty()
    } else {
        unlines(lines.drop_last()) + lines.last().push('\n')
    }
}

/// What the lines of a record say. The last line that states a fact is the one
/// that counts.
pub struct Facts {
    pub run: Option<u64>,
    pub compat: Option<u64>,
    pub pid: Option<u32>,
    pub started_at: Option<u64>,
    pub image: Option<Seq<char>>,
}

/// The key and the value that a line states, trimmed: what stands before its
/// first equals sign and behind it. Blank lines, comments and lines without an
/// equals sign state nothing.
pub open spec fn stated(line: Seq<char>) -> Option<(Seq<char>, Seq<char>)> {
    let line = trim(line);
    let at = position(line, '=') as int;
    if line.len() == 0 || line[0] == '#' || at == line.len() {
        None
    } else {
        Some((trim(line.take(at)), trim(line.skip(at + 1))))
    }
}

/// Whether `key` is one that a reader knows.
pub open spec fn known(key: Seq<char>) -> bool {
    key == "run"@ || key == "compat"@ || key == "pid"@ || key == "started_at"@ || key == "image"@
}

impl Facts {
    /// Nothing known yet.
    pub open spec fn none() -> Facts {
        Facts { run: None, compat: None, pid: None, started_at: None, image: None }
    }

    /// These facts, and what `key` with `value` adds to them.
    pub open spec fn with(self, key: Seq<char>, value: Seq<char>) -> Result<Facts, MalformedRecord> {
        if key == "run"@ {
            match number_spelled(value) {
                Some(n) => Ok(Facts { run: Some(n), ..self }),
                None => Err(MalformedRecord::NotANumber { key: "run" }),
            }
        } else if key == "compat"@ {
            match number_spelled(value) {
                Some(n) => Ok(Facts { compat: Some(n), ..self }),
                None => Err(MalformedRecord::NotANumber { key: "compat" }),
            }
        } else if key == "pid"@ {
            match number_spelled(value) {
                Some(n) if n <= u32::MAX => Ok(Facts { pid: Some(n as u32), ..self }),
                _ => Err(MalformedRecord::NotANumber { key: "pid" }),
            }
        } else if key == "started_at"@ {
            match number_spelled(value) {
                Some(n) => Ok(Facts { started_at: Some(n), ..self }),
                None => Err(MalformedRecord::NotANumber { key: "started_at" }),
            }
        } else if key == "image"@ {
            Ok(Facts { image: Some(value), ..self })
        } else {
            Ok(self)
        }
    }

    /// These facts, and what `line` adds to them.
    pub open spec fn with_line(self, line: Seq<char>) -> Result<Facts, MalformedRecord> {
        match stated(line) {
            Some((key, value)) => self.with(key, value),
            None => Ok(self),
        }
    }

    /// These facts, and what `lines` add to them one after the other. The first
    /// line that cannot be read ends the reading.
    pub open spec fn with_lines(self, lines: Seq<Seq<char>>) -> Result<Facts, MalformedRecord>
        decreases lines.len(),
    {
        if lines.len() == 0 {
            Ok(self)
        } else {
            match self.with_line(lines[0]) {
                Ok(facts) => facts.with_lines(lines.drop_first()),
                Err(malformed) => Err(malformed),
            }
        }
    }

    /// These facts, if they are enough for a record.
    pub open spec fn required(self) -> Result<Facts, MalformedRecord> {
        if self.run is None {
            Err(MalformedRecord::Missing { key: "run" })
        } else if self.compat is None {
            Err(MalformedRecord::Missing { key: "compat" })
        } else if self.pid is None {
            Err(MalformedRecord::Missing { key: "pid" })
        } else {
            Ok(self)
        }
    }
}

/// The facts that `text` states, or what is wrong with it.
pub open spec fn facts_in(text: Seq<char>) -> Result<Facts, MalformedRecord> {
    match Facts::none().with_lines(lines(text)) {
        Ok(facts) => facts.required(),
        Err(malformed) => Err(malformed),
    }
}

/// Whether a line can carry `image` unchanged: it has no newline in it and no
/// white space around it.
pub open spec fn fits_a_line(image: Seq<char>) -> bool {
    &&& trim(image) == image
    &&& !image.contains('\n')
}

impl Record {
    /// The image as text. An image whose path is not valid Unicode has none.
    pub open spec fn image_text(self) -> Option<Seq<char>> {
        match self.tenant.image {
            Some(image) => path_text(image),
            None => None,
        }
    }

    /// What the record says, as far as text can say it.
    pub open spec fn facts(self) -> Facts {
        Facts {
            run: Some(self.identity.run@),
            compat: Some(self.identity.compat@),
            pid: Some(self.tenant.pid),
            started_at: self.tenant.started_at,
            image: self.image_text(),
        }
    }

    /// The lines of the on-disk format: a marker, then one fact on each.
    pub open spec fn lines(self) -> Seq<Seq<char>> {
        seq![
            "# succession 1"@,
            fact_line("run"@, decimal(self.identity.run@ as nat)),
            fact_line("compat"@, decimal(self.identity.compat@ as nat)),
            fact_line("pid"@, decimal(self.tenant.pid as nat)),
        ] + (match self.tenant.started_at {
            Some(at) => seq![fact_line("started_at"@, decimal(at as nat))],
            None => seq![],
        }) + (match self.image_text() {
            Some(image) => seq![fact_line("image"@, image)],
            None => seq![],
        })
    }

    /// The record in the on-disk format.
    pub open spec fn text(self) -> Seq<char> {
        unlines(self.lines())
    }

    /// Render the record in the on-disk format.
    ///
    /// Deliberately a boring `key = value` text file: it has to be readable by
    /// every past and future build of every process in the tree, and by a
    /// person debugging at 2am. Readers ignore keys they do not know, so new
    /// facts can be added without a format version.
    #[must_use]
    pub fn to_text(&self) -> (text: String)
        ensures
            text@ == self.text(),
    {
        let mut text = String::from_str("# succession 1\n");
        let ghost mut done = seq!["# succession 1"@];
        proof {
            reveal_strlit("# succession 1\n");
            reveal_strlit("# succession 1");
            reveal_with_fuel(unlines, 2);
            assert(done.drop_last() == Seq::<Seq<char>>::empty());
            assert(text@ =~= unlines(done));
        }
        push_number(&mut text, "run", self.identity.run.get(), Ghost(done));
        proof {
            done = done.push(fact_line("run"@, decimal(self.identity.run@ as nat)));
        }
        push_number(&mut text, "compat", self.identity.compat.get(), Ghost(done));
        proof {
            done = done.push(fact_line("compat"@, decimal(self.identity.compat@ as nat)));
        }
        push_number(&mut text, "pid", self.tenant.pid as u64, Ghost(done));
        proof {
            done = done.push(fact_line("pid"@, decimal(self.tenant.pid as nat)));
        }
        if let Some(started_at) = self.tenant.started_at {
            push_number(&mut text, "started_at", started_at, Ghost(done));
            proof {
                done = done.push(fact_line("started_at"@, decimal(started_at as nat)));
            }
        }
        if let Some(image) = &self.tenant.image {
            if let Some(image) = text_of(image) {
                push_fact(&mut text, "image", image, Ghost(done));
                proof {
                    done = done.push(fact_line("image"@, image@));
                }
            }
        }
        assert(done =~= self.lines());
        text
    }
}

/// Append the line that states `value` under `key`.
fn push_fact(text: &mut String, key: &str, value: &str, Ghost(done): Ghost<Seq<Seq<char>>>)
    requires
        old(text)@ == unlines(done),
    ensures
        final(text)@ == unlines(done.push(fact_line(key@, value@))),
{
    text.append(key);
    text.append(" = ");
    text.append(value);
    text.append("\n");
    proof {
        reveal_strlit("\n");
        let line = fact_line(key@, value@);
        assert(done.push(line).drop_last() == done);
        assert(text@ =~= unlines(done) + line.push('\n'));
    }
}

/// Append the line that states the number `value` under `key`.
fn push_number(text: &mut String, key: &str, value: u64, Ghost(done): Ghost<Seq<Seq<char>>>)
    requires
        old(text)@ == unlines(done),
    ensures
        final(text)@ == unlines(done.push(fact_line(key@, decimal(value as nat)))),
{
    let mut digits = String::new();
    push_decimal(&mut digits, value);
    assert(digits@ =~= decimal(value as nat));
    push_fact(text, key, digits.as_str(), Ghost(done));
}

/// The facts read so far.
struct Reading {
    run: Option<u64>,
    compat: Option<u64>,
    pid: Option<u32>,
    started_at: Option<u64>,
    image: Option<PathBuf>,
}

impl View for Reading {
    type V = Facts;

    closed spec fn view(&self) -> Facts {
        Facts {
            run: self.run,
            compat: self.compat,
            pid: self.pid,
            started_at: self.started_at,
            image: match self.image {
                Some(image) => path_text(image),
                None => None,
            },
        }
    }
}

/// Whether `image` is the one path that its text belongs to.
pub open spec fn is_its_text(image: Option<PathBuf>) -> bool {
    image matches Some(image) ==> {
        &&& path_text(image) is Some
        &&& forall|other: PathBuf| #[trigger] path_text(other) == path_text(image) ==> other == image
    }
}

impl Reading {
    fn new() -> (reading: Reading)
        ensures
            reading@ == Facts::none(),
            is_its_text(reading.image),
    {
        Reading { run: None, compat: None, pid: None, started_at: None, image: None }
    }

    /// Read the line at `from..to`.
    fn read_line(&mut self, text: &str, chars: &Vec<char>, from: usize, to: usize) -> (read: Result<
        (),
        MalformedRecord,
    >)
        requires
            chars@ == text@,
            from <= to <= chars.len(),
            is_its_text(old(self).image),
        ensures
            match old(self)@.with_line(text@.subrange(from as int, to as int)) {
                Ok(facts) => read is Ok && final(self)@ == facts,
                Err(malformed) => read == Err::<(), MalformedRecord>(malformed),
            },
            is_its_text(final(self).image),
    {
        let (first, last) = trimmed(chars, from, to);
        let ghost line = text@.subrange(first as int, last as int);
        if first == last || chars[first] == '#' {
            return Ok(());
        }
        let at: usize = find(chars, first, last, '=');
        if at == last {
            return Ok(());
        }
        assert(line.take(at - first) == text@.subrange(first as int, at as int));
        assert(line.skip(at - first + 1) == text@.subrange(at + 1, last as int));
        let (key_from, key_to) = trimmed(chars, first, at);
        let (value_from, value_to) = trimmed(chars, at + 1, last);
        if spells(chars, key_from, key_to, "run") {
            match number(chars, value_from, value_to, "run") {
                Ok(run) => self.run = Some(run),
                Err(malformed) => return Err(malformed),
            }
        } else if spells(chars, key_from, key_to, "compat") {
            match number(chars, value_from, value_to, "compat") {
                Ok(compat) => self.compat = Some(compat),
                Err(malformed) => return Err(malformed),
            }
        } else if spells(chars, key_from, key_to, "pid") {
            match number(chars, value_from, value_to, "pid") {
                Ok(pid) => {
                    if pid > u32::MAX as u64 {
                        return Err(MalformedRecord::NotANumber { key: "pid" });
                    }
                    self.pid = Some(pid as u32);
                },
                Err(malformed) => return Err(malformed),
            }
        } else if spells(chars, key_from, key_to, "started_at") {
            match number(chars, value_from, value_to, "started_at") {
                Ok(started_at) => self.started_at = Some(started_at),
                Err(malformed) => return Err(malformed),
            }
        } else if spells(chars, key_from, key_to, "image") {
            self.image = Some(path_of(text.substring_char(value_from, value_to)));
        }
        Ok(())
    }
}

/// The number at `from..to`, which `key` must hold.
fn number(chars: &Vec<char>, from: usize, to: usize, key: &'static str) -> (parsed: Result<
    u64,
    MalformedRecord,
>)
    requires
        from <= to <= chars.len(),
    ensures
        parsed == (match number_spelled(chars@.subrange(from as int, to as int)) {
            Some(n) => Ok(n),
            None => Err(MalformedRecord::NotANumber { key }),
        }),
{
    match parse_number(chars, from, to) {
        Some(n) => Ok(n),
        None => Err(MalformedRecord::NotANumber { key }),
    }
}

impl Record {
    /// Whether the record is the one that states `facts`: its image is the one
    /// path of the text that they give.
    pub open spec fn states(self, facts: Facts) -> bool {
        &&& self.facts() == facts
        &&& self.tenant.image is Some <==> facts.image is Some
        &&& is_its_text(self.tenant.image)
    }

    /// Whether the record is all there in its text: the image is text, and fits
    /// a line.
    pub open spec fn fits_its_text(self) -> bool {
        self.tenant.image matches Some(image) ==> {
            &&& path_text(image) matches Some(text)
            &&& fits_a_line(text)
        }
    }

    /// Parse a record.
    ///
    /// Unknown keys, comments and blank lines are ignored, and every optional
    /// fact may be absent, so a record written by a newer build still reads.
    ///
    /// # Errors
    ///
    /// [`MalformedRecord`] if a required key is missing or a numeric value
    /// does not parse. Callers reading a claim file should treat any error as
    /// "held by someone who did not identify themselves" rather than as a
    /// failure: an unreadable record is exactly what an obsolete tenant leaves.
    pub fn parse(text: &str) -> (parsed: Result<Record, MalformedRecord>)
        ensures
            match facts_in(text@) {
                Ok(facts) => parsed matches Ok(record) && record.states(facts),
                Err(malformed) => parsed == Err::<Record, MalformedRecord>(malformed),
            },
            forall|written: Record| #[trigger]
                written.text() == text@ && written.fits_its_text() ==> parsed == Ok::<
                    Record,
                    MalformedRecord,
                >(written),
    {
        let parsed = Record::read(text);
        proof {
            assert forall|written: Record| #[trigger]
                written.text() == text@ && written.fits_its_text() implies parsed == Ok::<
                Record,
                MalformedRecord,
            >(written) by {
                written.law_round_trip();
                let record = parsed->Ok_0;
                record.identity.run.law_raw_form_identifies(written.identity.run);
                record.identity.compat.law_raw_form_identifies(written.identity.compat);
            }
        }
        parsed
    }

    /// Read the lines of `text` one after the other, then put the record
    /// together.
    fn read(text: &str) -> (parsed: Result<Record, MalformedRecord>)
        ensures
            match facts_in(text@) {
                Ok(facts) => parsed matches Ok(record) && record.states(facts),
                Err(malformed) => parsed == Err::<Record, MalformedRecord>(malformed),
            },
    {
        let chars: Vec<char> = characters(text);
        let mut reading = Reading::new();
        let mut from: usize = 0;
        let mut more: bool = true;
        let ghost whole = Facts::none().with_lines(lines(text@));
        assert(text@.skip(0) == text@);
        while more
            invariant
                chars@ == text@,
                from <= chars.len(),
                is_its_text(reading.image),
                whole == (if more {
                    reading@.with_lines(lines(text@.skip(from as int)))
                } else {
                    Ok(reading@)
                }),
                whole == Facts::none().with_lines(lines(text@)),
            decreases (if more { chars.len() - from + 1 } else { 0 }),
        {
            let to: usize = find(&chars, from, chars.len(), '\n');
            let ghost rest = text@.skip(from as int);
            proof {
                assert(rest == text@.subrange(from as int, text@.len() as int));
                let all = lines(rest);
                assert(rest.take(to - from) == text@.subrange(from as int, to as int));
                if to < chars.len() {
                    assert(rest.skip(to - from + 1) == text@.skip(to + 1));
                    assert(all.drop_first() == lines(text@.skip(to + 1)));
                } else {
                    assert(rest == text@.subrange(from as int, to as int));
                    assert(all.drop_first() == Seq::<Seq<char>>::empty());
                }
                assert(all[0] == text@.subrange(from as int, to as int));
            }
            match reading.read_line(text, &chars, from, to) {
                Ok(()) => {},
                Err(malformed) => return Err(malformed),
            }
            if to < chars.len() {
                from = to + 1;
            } else {
                assert(reading@.with_lines(Seq::empty()) == Ok::<Facts, MalformedRecord>(reading@));
                more = false;
            }
        }
        let run = match reading.run {
            Some(run) => Run::from_raw(run),
            None => return Err(MalformedRecord::Missing { key: "run" }),
        };
        let compat = match reading.compat {
            Some(compat) => Compat::from(compat),
            None => return Err(MalformedRecord::Missing { key: "compat" }),
        };
        let pid: u32 = match reading.pid {
            Some(pid) => pid,
            None => return Err(MalformedRecord::Missing { key: "pid" }),
        };
        Ok(
            Record {
                identity: Identity::new(run, compat),
                tenant: Tenant { pid, started_at: reading.started_at, image: reading.image },
            },
        )
    }
}

/// A key that a line can state: not empty, without an equals sign, a newline or
/// white space in it, and not the start of a comment.
spec fn plain_key(key: Seq<char>) -> bool {
    &&& key.len() > 0
    &&& key[0] != '#'
    &&& forall|i: int| 0 <= i < key.len() ==> #[trigger] key[i] != '=' && !white_space(key[i])
}

/// A line that states a fact is read as stating it.
proof fn lemma_fact_is_stated(key: Seq<char>, value: Seq<char>)
    requires
        plain_key(key),
        trim(value) == value,
    ensures
        stated(fact_line(key, value)) == Some((key, value)),
{
    reveal_strlit(" = ");
    reveal_with_fuel(trim_start, 2);
    reveal_with_fuel(trim_end, 2);
    let line = fact_line(key, value);
    let at = key.len() as int + 1;
    let shown = trim(line);
    lemma_trimmed(value);
    lemma_trimmed(key);
    assert(line[0] == key[0]);
    assert(trim_start(line) == line);
    if value.len() > 0 {
        assert(line.last() == value.last());
        assert(shown == line);
    } else {
        assert(line.drop_last() =~= key + seq![' ', '=']);
        assert(shown == key + seq![' ', '=']);
    }
    assert forall|i: int| 0 <= i < at implies #[trigger] shown[i] != '=' by {
        if i < key.len() {
            assert(shown[i] == key[i]);
        }
    }
    lemma_position_is(shown, '=', at);
    let before = shown.take(at);
    assert(before =~= key.push(' '));
    assert(before.drop_last() =~= key);
    assert(before[0] == key[0]);
    assert(trim(before) == key);
    let behind = shown.skip(at + 1);
    if value.len() > 0 {
        assert(behind =~= seq![' '] + value);
        assert(behind.drop_first() =~= value);
        assert(trim(behind) == trim(value));
    } else {
        assert(behind =~= value);
    }
}

/// The five keys are five, and each can be stated.
proof fn lemma_keys()
    ensures
        plain_key("run"@),
        plain_key("compat"@),
        plain_key("pid"@),
        plain_key("started_at"@),
        plain_key("image"@),
        "run"@ != "compat"@,
        "run"@ != "pid"@,
        "run"@ != "started_at"@,
        "run"@ != "image"@,
        "compat"@ != "pid"@,
        "compat"@ != "started_at"@,
        "compat"@ != "image"@,
        "pid"@ != "started_at"@,
        "pid"@ != "image"@,
        "started_at"@ != "image"@,
{
    reveal_strlit("run");
    reveal_strlit("compat");
    reveal_strlit("pid");
    reveal_strlit("started_at");
    reveal_strlit("image");
    assert("run"@[0] != "pid"@[0]);
}

/// Reading goes on from where it got to.
proof fn lemma_with_lines_push(facts: Facts, lines: Seq<Seq<char>>, line: Seq<char>)
    ensures
        facts.with_lines(lines.push(line)) == (match facts.with_lines(lines) {
            Ok(so_far) => so_far.with_line(line),
            Err(malformed) => Err(malformed),
        }),
    decreases lines.len(),
{
    reveal_with_fuel(Facts::with_lines, 2);
    if lines.len() == 0 {
        assert(lines.push(line).drop_first() == Seq::<Seq<char>>::empty());
    } else {
        assert(lines.push(line).drop_first() == lines.drop_first().push(line));
        match facts.with_line(lines[0]) {
            Ok(next) => lemma_with_lines_push(next, lines.drop_first(), line),
            Err(_) => {},
        }
    }
}

proof fn lemma_unlines_first(all: Seq<Seq<char>>)
    requires
        all.len() > 0,
    ensures
        unlines(all) == all[0] + seq!['\n'] + unlines(all.drop_first()),
    decreases all.len(),
{
    reveal_with_fuel(unlines, 2);
    if all.len() == 1 {
        assert(all.drop_first() == Seq::<Seq<char>>::empty());
        assert(all.drop_last() == Seq::<Seq<char>>::empty());
        assert(unlines(all) =~= all[0] + seq!['\n'] + unlines(all.drop_first()));
    } else {
        lemma_unlines_first(all.drop_last());
        assert(all.drop_last().drop_first() == all.drop_first().drop_last());
        assert(unlines(all) =~= all[0] + seq!['\n'] + unlines(all.drop_first()));
    }
}

/// Lines that were put together come apart again; behind the last newline
/// there is one more, which is empty.
proof fn lemma_lines_of_unlines(all: Seq<Seq<char>>)
    requires
        forall|i: int| 0 <= i < all.len() ==> !(#[trigger] all[i]).contains('\n'),
    ensures
        lines(unlines(all)) == all.push(Seq::empty()),
    decreases all.len(),
{
    if all.len() == 0 {
        lemma_one_line(Seq::empty());
    } else {
        lemma_unlines_first(all);
        assert forall|i: int| 0 <= i < all.drop_first().len() implies !(
        #[trigger] all.drop_first()[i]).contains('\n') by {
            assert(!all[i + 1].contains('\n'));
        }
        lemma_lines_of_unlines(all.drop_first());
        lemma_lines_part(all[0], unlines(all.drop_first()));
        lemma_one_line(all[0]);
        assert(all.push(Seq::empty()) =~= seq![all[0]] + all.drop_first().push(Seq::empty()));
    }
}

/// A fact without a newline in it makes a line without one.
proof fn lemma_fact_line_is_one_line(key: Seq<char>, value: Seq<char>)
    requires
        plain_key(key),
        !value.contains('\n'),
    ensures
        !fact_line(key, value).contains('\n'),
{
    reveal_strlit(" = ");
    let line = fact_line(key, value);
    if line.contains('\n') {
        let i = choose|i: int| 0 <= i < line.len() && line[i] == '\n';
        if i < key.len() {
            assert(line[i] == key[i]);
            assert(white_space('\n'));
        } else if i >= key.len() + 3 {
            assert(value[i - key.len() - 3] == '\n');
        }
    }
}

/// A number written in decimal can stand behind a key.
proof fn lemma_decimal_fits(n: nat)
    ensures
        fits_a_line(decimal(n)),
{
    lemma_decimal_is_read_back(n);
    lemma_trimmed(decimal(n));
    let text = decimal(n);
    if text.contains('\n') {
        let i = choose|i: int| 0 <= i < text.len() && text[i] == '\n';
        assert(crate::text::is_digit(text[i]));
    }
}

/// One more fact on one more line: it is on a line of its own, and reading it
/// adds it to what was read.
proof fn lemma_one_more_fact(
    all: Seq<Seq<char>>,
    key: Seq<char>,
    value: Seq<char>,
    read: Facts,
)
    requires
        plain_key(key),
        fits_a_line(value),
        forall|i: int| 0 <= i < all.len() ==> !(#[trigger] all[i]).contains('\n'),
        Facts::none().with_lines(all) == Ok::<Facts, MalformedRecord>(read),
    ensures
        ({
            let more = all.push(fact_line(key, value));
            &&& forall|i: int| 0 <= i < more.len() ==> !(#[trigger] more[i]).contains('\n')
            &&& Facts::none().with_lines(more) == read.with(key, value)
        }),
{
    lemma_fact_is_stated(key, value);
    lemma_fact_line_is_one_line(key, value);
    lemma_with_lines_push(Facts::none(), all, fact_line(key, value));
}

impl Record {
    /// What a record says survives being written and read back: every fact, as
    /// long as the image fits a line. An image that is not valid Unicode is not
    /// written, and reads back as absent.
    pub proof fn law_round_trip(self)
        requires
            self.image_text() matches Some(image) ==> fits_a_line(image),
        ensures
            facts_in(self.text()) == Ok::<Facts, MalformedRecord>(self.facts()),
    {
        lemma_keys();
        let run = self.identity.run@;
        let compat = self.identity.compat@;
        let pid = self.tenant.pid;
        lemma_number_round_trip(run);
        lemma_number_round_trip(compat);
        lemma_number_round_trip(pid as u64);
        lemma_decimal_fits(run as nat);
        lemma_decimal_fits(compat as nat);
        lemma_decimal_fits(pid as nat);
        let none = Facts::none();
        let all = seq!["# succession 1"@];
        assert(none.with_lines(all) == Ok::<Facts, MalformedRecord>(none) && !all[0].contains(
            '\n',
        )) by {
            reveal_strlit("# succession 1");
            lemma_trimmed(all[0]);
            reveal_with_fuel(Facts::with_lines, 2);
            assert(all.drop_first() == Seq::<Seq<char>>::empty());
        }
        let read = none;
        lemma_one_more_fact(all, "run"@, decimal(run as nat), read);
        let all = all.push(fact_line("run"@, decimal(run as nat)));
        let read = Facts { run: Some(run), ..read };
        lemma_one_more_fact(all, "compat"@, decimal(compat as nat), read);
        let all = all.push(fact_line("compat"@, decimal(compat as nat)));
        let read = Facts { compat: Some(compat), ..read };
        lemma_one_more_fact(all, "pid"@, decimal(pid as nat), read);
        let all = all.push(fact_line("pid"@, decimal(pid as nat)));
        let read = Facts { pid: Some(pid), ..read };
        let (all, read) = match self.tenant.started_at {
            Some(at) => {
                lemma_number_round_trip(at);
                lemma_decimal_fits(at as nat);
                lemma_one_more_fact(all, "started_at"@, decimal(at as nat), read);
                (
                    all.push(fact_line("started_at"@, decimal(at as nat))),
                    Facts { started_at: Some(at), ..read },
                )
            },
            None => (all, read),
        };
        let (all, read) = match self.image_text() {
            Some(image) => {
                lemma_one_more_fact(all, "image"@, image, read);
                (all.push(fact_line("image"@, image)), Facts { image: Some(image), ..read })
            },
            None => (all, read),
        };
        assert(all =~= self.lines());
        lemma_lines_of_unlines(all);
        lemma_with_lines_push(none, all, Seq::empty());
        lemma_trimmed(Seq::<char>::empty());
    }
}

/// Whether `line` states something a reader knows.
pub open spec fn tells(line: Seq<char>) -> bool {
    stated(line) matches Some((key, _)) && known(key)
}

/// The lines of `text` that state something a reader knows.
pub open spec fn telling_lines(text: Seq<char>) -> Seq<Seq<char>> {
    lines(text).filter(|line: Seq<char>| tells(line))
}

/// Reading leaves out the lines that state nothing a reader knows.
proof fn lemma_with_telling_lines(facts: Facts, all: Seq<Seq<char>>)
    ensures
        facts.with_lines(all) == facts.with_lines(all.filter(|line: Seq<char>| tells(line))),
    decreases all.len(),
{
    reveal(Seq::filter);
    if all.len() > 0 {
        let rest = all.drop_last();
        let kept = rest.filter(|line: Seq<char>| tells(line));
        lemma_with_telling_lines(facts, rest);
        assert(rest.push(all.last()) == all);
        lemma_with_lines_push(facts, rest, all.last());
        lemma_with_lines_push(facts, kept, all.last());
    }
}

/// A reader ignores what it does not know, wherever it stands and however much
/// of it there is: texts that differ only in lines that state nothing a reader
/// knows say the same.
pub proof fn law_only_known_lines_count(one: Seq<char>, other: Seq<char>)
    requires
        telling_lines(one) == telling_lines(other),
    ensures
        facts_in(one) == facts_in(other),
{
    lemma_with_telling_lines(Facts::none(), lines(one));
    lemma_with_telling_lines(Facts::none(), lines(other));
}

/// What is kept of two stretches of lines is what is kept of each.
proof fn lemma_filter_add(all: Seq<Seq<char>>, more: Seq<Seq<char>>)
    ensures
        (all + more).filter(|line: Seq<char>| tells(line)) == all.filter(
            |line: Seq<char>| tells(line),
        ) + more.filter(|line: Seq<char>| tells(line)),
    decreases more.len(),
{
    reveal(Seq::filter);
    let known_ones = |line: Seq<char>| tells(line);
    if more.len() == 0 {
        assert(all + more == all);
        assert(all.filter(known_ones) + more.filter(known_ones) =~= all.filter(known_ones));
    } else {
        lemma_filter_add(all, more.drop_last());
        assert((all + more).drop_last() == all + more.drop_last());
        assert((all + more).filter(known_ones) =~= all.filter(known_ones) + more.filter(
            known_ones,
        ));
    }
}

/// Nothing is kept of lines that state nothing a reader knows.
proof fn lemma_nothing_is_kept(all: Seq<Seq<char>>)
    requires
        forall|i: int| 0 <= i < all.len() ==> !tells(#[trigger] all[i]),
    ensures
        all.filter(|line: Seq<char>| tells(line)) == Seq::<Seq<char>>::empty(),
    decreases all.len(),
{
    reveal(Seq::filter);
    if all.len() > 0 {
        lemma_nothing_is_kept(all.drop_last());
        assert(!tells(all[all.len() - 1]));
    }
}

/// What a text says does not change with what stands behind one of its newlines,
/// as long as the lines there that state something are the same.
proof fn lemma_behind_a_newline(before: Seq<char>, one: Seq<char>, other: Seq<char>)
    requires
        telling_lines(one) == telling_lines(other),
    ensures
        facts_in(before + seq!['\n'] + one) == facts_in(before + seq!['\n'] + other),
{
    lemma_lines_part(before, one);
    lemma_lines_part(before, other);
    lemma_filter_add(lines(before), lines(one));
    lemma_filter_add(lines(before), lines(other));
    law_only_known_lines_count(before + seq!['\n'] + one, before + seq!['\n'] + other);
}

/// Lines that state nothing a reader knows, however many, can be put anywhere in
/// a record without changing what the record says: in front of it, between two of
/// its lines, and behind it, whether its last line is ended by a newline or not.
pub proof fn law_unknown_lines_are_ignored(
    before: Seq<char>,
    inserted: Seq<char>,
    after: Seq<char>,
)
    requires
        forall|i: int| 0 <= i < lines(inserted).len() ==> !tells(#[trigger] lines(inserted)[i]),
    ensures
        facts_in(inserted + seq!['\n'] + after) == facts_in(after),
        facts_in(before + seq!['\n'] + (inserted + seq!['\n'] + after)) == facts_in(
            before + seq!['\n'] + after,
        ),
        facts_in(before + seq!['\n'] + inserted) == facts_in(before),
        before.len() > 0 && before.last() == '\n' ==> facts_in(before + inserted) == facts_in(
            before,
        ),
{
    let empty = Seq::<char>::empty();
    lemma_nothing_is_kept(lines(inserted));
    lemma_one_line(empty);
    lemma_trimmed(empty);
    lemma_nothing_is_kept(seq![empty]);
    lemma_lines_part(inserted, after);
    lemma_filter_add(lines(inserted), lines(after));
    assert(telling_lines(inserted + seq!['\n'] + after) =~= telling_lines(after));
    law_only_known_lines_count(inserted + seq!['\n'] + after, after);
    lemma_behind_a_newline(before, inserted + seq!['\n'] + after, after);
    lemma_lines_part(before, inserted);
    lemma_filter_add(lines(before), lines(inserted));
    assert(telling_lines(before + seq!['\n'] + inserted) =~= telling_lines(before));
    law_only_known_lines_count(before + seq!['\n'] + inserted, before);
    if before.len() > 0 && before.last() == '\n' {
        let kept = before.drop_last();
        lemma_behind_a_newline(kept, inserted, empty);
        assert(before + inserted == kept + seq!['\n'] + inserted);
        assert(before == kept + seq!['\n'] + empty);
    }
}

impl Record {
    /// Texts that differ only in lines that state nothing a reader knows are
    /// parsed alike, into the same record or with the same fault.
    pub proof fn law_a_reader_ignores_what_it_does_not_know(
        one: &str,
        other: &str,
        parsed: Result<Record, MalformedRecord>,
        parsed_other: Result<Record, MalformedRecord>,
    )
        requires
            telling_lines(one@) == telling_lines(other@),
            call_ensures(Record::parse, (one,), parsed),
            call_ensures(Record::parse, (other,), parsed_other),
        ensures
            parsed == parsed_other,
    {
        law_only_known_lines_count(one@, other@);
        if facts_in(one@) is Ok {
            let (record, same) = (parsed->Ok_0, parsed_other->Ok_0);
            record.identity.run.law_raw_form_identifies(same.identity.run);
            record.identity.compat.law_raw_form_identifies(same.identity.compat);
        }
    }
}

/// A line states the key before its first equals sign and the value behind it,
/// with white space anywhere around the two, as long as it does not begin as a
/// comment.
pub proof fn law_a_line_states_a_key_and_a_value(
    pads: (Seq<char>, Seq<char>, Seq<char>, Seq<char>),
    key: Seq<char>,
    value: Seq<char>,
)
    requires
        blank(pads.0) && blank(pads.1) && blank(pads.2) && blank(pads.3),
        is_trimmed(key),
        is_trimmed(value),
        !key.contains('='),
        key.len() > 0 ==> key[0] != '#',
    ensures
        stated(pads.0 + key + pads.1 + seq!['='] + pads.2 + value + pads.3) == Some((key, value)),
{
    let empty = Seq::<char>::empty();
    let line = pads.0 + key + pads.1 + seq!['='] + pads.2 + value + pads.3;
    let lead = if key.len() > 0 {
        pads.0
    } else {
        pads.0 + pads.1
    };
    let head = if key.len() > 0 {
        key + pads.1
    } else {
        empty
    };
    let tail = if value.len() > 0 {
        pads.2 + value
    } else {
        empty
    };
    let trail = if value.len() > 0 {
        pads.3
    } else {
        pads.2 + pads.3
    };
    let core = head + seq!['='] + tail;
    let at = head.len() as int;
    assert(line =~= lead + core + trail);
    assert(core[0] == (if key.len() > 0 {
        key[0]
    } else {
        '='
    }));
    assert(core.last() == (if value.len() > 0 {
        value.last()
    } else {
        '='
    }));
    law_trimming_takes_the_white_space_around(lead, core, trail);
    assert forall|i: int| 0 <= i < at implies #[trigger] core[i] != '=' by {
        if i < key.len() {
            assert(core[i] == key[i]);
            assert(key.contains(key[i]));
        } else {
            assert(core[i] == pads.1[i - key.len()]);
        }
    }
    assert(core[at] == '=');
    lemma_position_is(core, '=', at);
    assert(core.take(at) =~= head);
    assert(core.skip(at + 1) =~= tail);
    if key.len() > 0 {
        law_trimming_takes_the_white_space_around(empty, key, pads.1);
        assert(empty + key + pads.1 =~= head);
    } else {
        law_trimming_takes_the_white_space_around(empty, empty, empty);
        assert(empty + empty + empty =~= head);
        assert(key =~= empty);
    }
    if value.len() > 0 {
        law_trimming_takes_the_white_space_around(pads.2, value, empty);
        assert(pads.2 + value + empty =~= tail);
    } else {
        law_trimming_takes_the_white_space_around(empty, empty, empty);
        assert(empty + empty + empty =~= tail);
        assert(value =~= empty);
    }
}

/// A line without an equals sign states nothing, and neither does a comment: a
/// line whose first character that is not white space is a number sign.
pub proof fn law_a_comment_states_nothing(pad: Seq<char>, line: Seq<char>)
    requires
        blank(pad),
    ensures
        !line.contains('=') ==> stated(line) is None,
        stated(pad + seq!['#'] + line) is None,
{
    let shown = trim(line);
    if !line.contains('=') {
        lemma_trim_start_is_an_end(line);
        lemma_trim_end_is_a_start(trim_start(line));
        lemma_position_bounds(shown, '=');
        let at = position(shown, '=') as int;
        if at < shown.len() {
            assert(trim_start(line)[at] == '=');
            assert(line[line.len() - trim_start(line).len() + at] == '=');
        }
    }
    let comment = seq!['#'] + line;
    assert(pad + seq!['#'] + line =~= pad + comment);
    lemma_trim_start_padded(pad, comment);
    assert(trim_start(comment) == comment);
    lemma_trim_end_is_a_start(comment);
    assert(trim(pad + comment)[0] == '#');
}

/// What is wrong with a line, if anything is: a key that must hold a number holds
/// something else.
pub open spec fn fault(line: Seq<char>) -> Option<&'static str> {
    match stated(line) {
        Some((key, value)) => if key == "run"@ && number_spelled(value) is None {
            Some("run")
        } else if key == "compat"@ && number_spelled(value) is None {
            Some("compat")
        } else if key == "pid"@ && (number_spelled(value) is None || number_spelled(value)->0
            > u32::MAX) {
            Some("pid")
        } else if key == "started_at"@ && number_spelled(value) is None {
            Some("started_at")
        } else {
            None
        },
        None => None,
    }
}

/// The value that the last of `all` to state `key` gives it, if one does.
pub open spec fn last_stated(all: Seq<Seq<char>>, key: Seq<char>) -> Option<Seq<char>>
    decreases all.len(),
{
    if all.len() == 0 {
        None
    } else {
        match stated(all.last()) {
            Some((stated_key, value)) if stated_key == key => Some(value),
            _ => last_stated(all.drop_last(), key),
        }
    }
}

/// The number that the last of `all` to state `key` gives it, if one does.
pub open spec fn last_number(all: Seq<Seq<char>>, key: Seq<char>) -> Option<u64> {
    match last_stated(all, key) {
        Some(value) => number_spelled(value),
        None => None,
    }
}

/// Lines without a fault are read, the last statement of a key counting; lines
/// with one are not, for the first fault among them.
proof fn lemma_read(all: Seq<Seq<char>>)
    ensures
        match Facts::none().with_lines(all) {
            Ok(facts) => {
                &&& forall|i: int| 0 <= i < all.len() ==> fault(#[trigger] all[i]) is None
                &&& facts.run == last_number(all, "run"@)
                &&& facts.compat == last_number(all, "compat"@)
                &&& (facts.pid is Some <==> last_number(all, "pid"@) is Some)
                &&& (facts.pid is Some ==> last_number(all, "pid"@) == Some(facts.pid->0 as u64))
                &&& facts.started_at == last_number(all, "started_at"@)
                &&& facts.image == last_stated(all, "image"@)
                &&& (facts.run is None <==> last_stated(all, "run"@) is None)
                &&& (facts.compat is None <==> last_stated(all, "compat"@) is None)
                &&& (facts.pid is None <==> last_stated(all, "pid"@) is None)
                &&& (facts.started_at is None <==> last_stated(all, "started_at"@) is None)
            },
            Err(malformed) => exists|i: int|
                {
                    &&& 0 <= i < all.len()
                    &&& fault(#[trigger] all[i]) is Some
                    &&& malformed == (MalformedRecord::NotANumber { key: fault(all[i])->0 })
                    &&& forall|j: int| 0 <= j < i ==> fault(#[trigger] all[j]) is None
                },
        },
    decreases all.len(),
{
    lemma_keys();
    if all.len() > 0 {
        let rest = all.drop_last();
        lemma_read(rest);
        assert(rest.push(all.last()) == all);
        lemma_with_lines_push(Facts::none(), rest, all.last());
        assert(all[all.len() - 1] == all.last());
        match Facts::none().with_lines(rest) {
            Ok(_) => {
                assert forall|i: int| 0 <= i < all.len() - 1 implies fault(
                    #[trigger] all[i],
                ) is None by {
                    assert(rest[i] == all[i]);
                }
            },
            Err(malformed) => {
                let i = choose|i: int|
                    {
                        &&& 0 <= i < rest.len()
                        &&& fault(#[trigger] rest[i]) is Some
                        &&& malformed == (MalformedRecord::NotANumber { key: fault(rest[i])->0 })
                        &&& forall|j: int| 0 <= j < i ==> fault(#[trigger] rest[j]) is None
                    };
                assert(all[i] == rest[i]);
                assert forall|j: int| 0 <= j < i implies fault(#[trigger] all[j]) is None by {
                    assert(rest[j] == all[j]);
                }
            },
        }
    }
}

/// One more fact is one more line behind the others.
proof fn lemma_one_more_line(
    all: Seq<Seq<char>>,
    key: Seq<char>,
    opening: Seq<char>,
    value: Seq<char>,
)
    requires
        key + " = "@ == opening,
    ensures
        unlines(all.push(fact_line(key, value))) == unlines(all) + opening + value + seq!['\n'],
{
    let line = fact_line(key, value);
    assert(all.push(line).drop_last() == all);
    assert(unlines(all.push(line)) =~= unlines(all) + opening + value + seq!['\n']);
}

impl Record {
    /// A record that is read says of every key what the last line that states the
    /// key says, and nothing of a key that no line states.
    pub proof fn law_the_last_statement_of_a_key_counts(text: &str, record: Record)
        requires
            call_ensures(Record::parse, (text,), Ok::<Record, MalformedRecord>(record)),
        ensures
            last_number(lines(text@), "run"@) == Some(record.identity.run@),
            last_number(lines(text@), "compat"@) == Some(record.identity.compat@),
            last_number(lines(text@), "pid"@) == Some(record.tenant.pid as u64),
            last_number(lines(text@), "started_at"@) == record.tenant.started_at,
            last_stated(lines(text@), "image"@) == (match record.tenant.image {
                Some(image) => path_text(image),
                None => None,
            }),
            record.tenant.image is Some <==> last_stated(lines(text@), "image"@) is Some,
    {
        lemma_read(lines(text@));
    }

    /// A text is a record exactly where it states a run, a compat and a pid and no
    /// line of it has a fault. Where it is not, the first fault is reported, or
    /// else the first of the three keys that is missing.
    pub proof fn law_what_a_text_must_say_to_be_a_record(
        text: &str,
        parsed: Result<Record, MalformedRecord>,
    )
        requires
            call_ensures(Record::parse, (text,), parsed),
        ensures
            ({
                let all = lines(text@);
                let faultless = forall|i: int|
                    0 <= i < all.len() ==> fault(#[trigger] all[i]) is None;
                let run = last_stated(all, "run"@) is Some;
                let compat = last_stated(all, "compat"@) is Some;
                let pid = last_stated(all, "pid"@) is Some;
                &&& parsed is Ok <==> faultless && run && compat && pid
                &&& faultless && !run ==> parsed == Err::<Record, MalformedRecord>(
                    MalformedRecord::Missing { key: "run" },
                )
                &&& faultless && run && !compat ==> parsed == Err::<Record, MalformedRecord>(
                    MalformedRecord::Missing { key: "compat" },
                )
                &&& faultless && run && compat && !pid ==> parsed == Err::<
                    Record,
                    MalformedRecord,
                >(MalformedRecord::Missing { key: "pid" })
                &&& forall|i: int|
                    0 <= i < all.len() && fault(#[trigger] all[i]) is Some && (forall|j: int|
                        0 <= j < i ==> fault(#[trigger] all[j]) is None) ==> parsed == Err::<
                        Record,
                        MalformedRecord,
                    >(MalformedRecord::NotANumber { key: fault(all[i])->0 })
            }),
    {
        let all = lines(text@);
        lemma_read(all);
        if Facts::none().with_lines(all) is Err {
            let malformed = Facts::none().with_lines(all)->Err_0;
            let first = choose|i: int|
                {
                    &&& 0 <= i < all.len()
                    &&& fault(#[trigger] all[i]) is Some
                    &&& malformed == (MalformedRecord::NotANumber { key: fault(all[i])->0 })
                    &&& forall|j: int| 0 <= j < i ==> fault(#[trigger] all[j]) is None
                };
            assert forall|i: int|
                0 <= i < all.len() && fault(#[trigger] all[i]) is Some && (forall|j: int|
                    0 <= j < i ==> fault(#[trigger] all[j]) is None) implies parsed == Err::<
                Record,
                MalformedRecord,
            >(MalformedRecord::NotANumber { key: fault(all[i])->0 }) by {
                if first < i {
                    assert(fault(all[first]) is None);
                } else if i < first {
                    assert(fault(all[i]) is None);
                }
            }
        }
    }

    /// A record is written as a marker and one line for each fact: the run, the
    /// compat and the pid, then the start time and the image as far as they are
    /// there, numbers in decimal and an image as its text.
    pub proof fn law_a_record_is_written_fact_by_fact(self, text: String)
        requires
            call_ensures(Record::to_text, (&self,), text),
        ensures
            ({
                let newline = seq!['\n'];
                let required = "# succession 1"@ + newline + "run = "@ + decimal(
                    self.identity.run@ as nat,
                ) + newline + "compat = "@ + decimal(self.identity.compat@ as nat) + newline
                    + "pid = "@ + decimal(self.tenant.pid as nat) + newline;
                let started = match self.tenant.started_at {
                    Some(at) => required + "started_at = "@ + decimal(at as nat) + newline,
                    None => required,
                };
                text@ == (match self.tenant.image {
                    Some(image) => match path_text(image) {
                        Some(image) => started + "image = "@ + image + newline,
                        None => started,
                    },
                    None => started,
                })
            }),
    {
        reveal_strlit(" = ");
        assert("run"@ + " = "@ =~= "run = "@) by {
            reveal_strlit("run");
            reveal_strlit("run = ");
        }
        assert("compat"@ + " = "@ =~= "compat = "@) by {
            reveal_strlit("compat");
            reveal_strlit("compat = ");
        }
        assert("pid"@ + " = "@ =~= "pid = "@) by {
            reveal_strlit("pid");
            reveal_strlit("pid = ");
        }
        assert("started_at"@ + " = "@ =~= "started_at = "@) by {
            reveal_strlit("started_at");
            reveal_strlit("started_at = ");
        }
        assert("image"@ + " = "@ =~= "image = "@) by {
            reveal_strlit("image");
            reveal_strlit("image = ");
        }
        let all = seq!["# succession 1"@];
        assert(unlines(all) =~= "# succession 1"@ + seq!['\n']) by {
            reveal_with_fuel(unlines, 2);
            assert(all.drop_last() == Seq::<Seq<char>>::empty());
        }
        let run = decimal(self.identity.run@ as nat);
        lemma_one_more_line(all, "run"@, "run = "@, run);
        let all = all.push(fact_line("run"@, run));
        let compat = decimal(self.identity.compat@ as nat);
        lemma_one_more_line(all, "compat"@, "compat = "@, compat);
        let all = all.push(fact_line("compat"@, compat));
        let pid = decimal(self.tenant.pid as nat);
        lemma_one_more_line(all, "pid"@, "pid = "@, pid);
        let all = all.push(fact_line("pid"@, pid));
        let all = match self.tenant.started_at {
            Some(at) => {
                lemma_one_more_line(all, "started_at"@, "started_at = "@, decimal(at as nat));
                all.push(fact_line("started_at"@, decimal(at as nat)))
            },
            None => all,
        };
        let all = match self.image_text() {
            Some(image) => {
                lemma_one_more_line(all, "image"@, "image = "@, image);
                all.push(fact_line("image"@, image))
            },
            None => all,
        };
        assert(all =~= self.lines());
    }

    /// A record that is written is read back as it was, whole, as long as its image
    /// is text without a newline in it or white space around it.
    pub proof fn law_what_is_written_is_read_back(
        self,
        text: String,
        read: &str,
        parsed: Result<Record, MalformedRecord>,
    )
        requires
            call_ensures(Record::to_text, (&self,), text),
            read@ == text@,
            call_ensures(Record::parse, (read,), parsed),
            self.tenant.image matches Some(image) ==> {
                &&& path_text(image) is Some
                &&& is_trimmed(path_text(image)->0)
                &&& !path_text(image)->0.contains('\n')
            },
        ensures
            parsed == Ok::<Record, MalformedRecord>(self),
    {
        if self.tenant.image is Some {
            lemma_trimmed(path_text(self.tenant.image->0)->0);
        }
    }
}

} // verus!
