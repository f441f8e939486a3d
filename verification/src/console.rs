use vstd::prelude::*;

use crate::text::{
    collect_chars, in_class, is_whitespace, lead_len, lemma_lead_len, lemma_lead_len_props, lemma_trail_len,
    lemma_trail_len_props, lemma_trim_without_trailing, range_is, skip_leading, trail_len, trim, trim_range, CharClass,
};

verus! {

/// The settings that `/etc/vconsole.conf` can hold.
#[derive(Debug)]
pub struct Config {
    pub keymap: Option<String>,
    pub font: Option<String>,
    pub font_map: Option<String>,
    pub font_unimap: Option<String>,
}

/// The mathematical value of a [`Config`]: each setting as its characters.
pub struct ConfigView {
    pub keymap: Option<Seq<char>>,
    pub font: Option<Seq<char>>,
    pub font_map: Option<Seq<char>>,
    pub font_unimap: Option<Seq<char>>,
}

pub open spec fn opt_string_view(o: Option<String>) -> Option<Seq<char>> {
    match o {
        Some(s) => Some(s@),
        None => None,
    }
}

impl View for Config {
    type V = ConfigView;

    open spec fn view(&self) -> ConfigView {
        ConfigView {
            keymap: opt_string_view(self.keymap),
            font: opt_string_view(self.font),
            font_map: opt_string_view(self.font_map),
            font_unimap: opt_string_view(self.font_unimap),
        }
    }
}

/// The configuration with no setting.
pub open spec fn empty_config() -> ConfigView {
    ConfigView { keymap: None, font: None, font_map: None, font_unimap: None }
}

impl Default for Config {
    fn default() -> (c: Config)
        ensures
            c@ == empty_config(),
    {
        Config { keymap: None, font: None, font_map: None, font_unimap: None }
    }
}

/// The value of a `KEY=value` line: trimmed, then stripped of double and
/// then of single quotes.
pub open spec fn conf_value(raw: Seq<char>) -> Seq<char> {
    trim(trim(trim(raw, CharClass::Whitespace), CharClass::Is('"')), CharClass::Is('\''))
}

/// The effect of one line of the configuration file on the settings read so far.
pub open spec fn apply_line(cfg: ConfigView, line: Seq<char>) -> ConfigView {
    let t = trim(line, CharClass::Whitespace);
    let j = lead_len(t, CharClass::IsNot('='));
    if t.len() == 0 || t[0] == '#' || j == t.len() {
        cfg
    } else {
        let key = trim(t.take(j as int), CharClass::Whitespace);
        let v = conf_value(t.skip(j + 1int));
        if key == "KEYMAP"@ {
            ConfigView { keymap: Some(v), ..cfg }
        } else if key == "FONT"@ {
            ConfigView { font: Some(v), ..cfg }
        } else if key == "FONT_MAP"@ {
            ConfigView { font_map: Some(v), ..cfg }
        } else if key == "FONT_UNIMAP"@ {
            ConfigView { font_unimap: Some(v), ..cfg }
        } else {
            cfg
        }
    }
}

/// The settings after the lines of `s` (separated by `'\n'`) are applied in
/// order to `cfg`.
pub open spec fn apply_lines(cfg: ConfigView, s: Seq<char>) -> ConfigView
    decreases s.len(),
{
    let n = lead_len(s, CharClass::IsNot('\n'));
    let next = apply_line(cfg, s.take(n as int));
    if n >= s.len() {
        next
    } else {
        apply_lines(next, s.skip(n + 1int))
    }
}

/// The settings that the text of a vconsole configuration file defines.
pub open spec fn spec_parse_vconsole_conf(text: Seq<char>) -> ConfigView {
    apply_lines(empty_config(), text)
}

/// The settings of a file are its lines applied in order: the text `a`, a
/// line break and then the text `b` define what `b` defines on top of what
/// `a` defines.
pub proof fn lemma_apply_lines_concat(cfg: ConfigView, a: Seq<char>, b: Seq<char>)
    ensures
        apply_lines(cfg, a + seq!['\n'] + b) == apply_lines(apply_lines(cfg, a), b),
    decreases a.len(),
{
    let k = CharClass::IsNot('\n');
    let s = a + seq!['\n'] + b;
    lemma_lead_len_props(a, k);
    let n = lead_len(a, k);
    assert forall|j: int| 0 <= j < n implies in_class(k, #[trigger] s[j]) by {
        assert(s[j] == a[j]);
    }
    assert(s[n as int] == '\n');
    lemma_lead_len(s, k, n as int);
    assert(s.take(n as int) == a.take(n as int));
    let next = apply_line(cfg, a.take(n as int));
    if n == a.len() {
        assert(s.skip(n + 1int) == b);
    } else {
        let rest = a.skip(n + 1int);
        assert(s.skip(n + 1int) == rest + seq!['\n'] + b);
        lemma_apply_lines_concat(next, rest, b);
    }
}

/// The settings of the text `a + "\n" + b` are those of `b` read on top of
/// those of `a`.
pub proof fn lemma_parse_vconsole_conf_concat(a: Seq<char>, b: Seq<char>)
    ensures
        spec_parse_vconsole_conf(a + seq!['\n'] + b) == apply_lines(spec_parse_vconsole_conf(a), b),
{
    lemma_apply_lines_concat(empty_config(), a, b);
}

/// A line `KEY=value` sets the setting whose name is exactly `KEY` to the
/// value, trimmed and stripped of quotes, and changes nothing else; a line
/// whose key is none of `KEYMAP`, `FONT`, `FONT_MAP` and `FONT_UNIMAP`
/// (such as `KEYMAP_TOGGLE`) leaves the settings as they were.
pub proof fn lemma_key_line(cfg: ConfigView, key: Seq<char>, value: Seq<char>)
    requires
        key.len() > 0,
        key[0] != '#',
        forall|i: int| 0 <= i < key.len() ==> !is_whitespace(#[trigger] key[i]) && key[i] != '=',
    ensures
        key == "KEYMAP"@ ==> apply_line(cfg, key + seq!['='] + value)
            == (ConfigView { keymap: Some(conf_value(value)), ..cfg }),
        key == "FONT"@ ==> apply_line(cfg, key + seq!['='] + value)
            == (ConfigView { font: Some(conf_value(value)), ..cfg }),
        key == "FONT_MAP"@ ==> apply_line(cfg, key + seq!['='] + value)
            == (ConfigView { font_map: Some(conf_value(value)), ..cfg }),
        key == "FONT_UNIMAP"@ ==> apply_line(cfg, key + seq!['='] + value)
            == (ConfigView { font_unimap: Some(conf_value(value)), ..cfg }),
        key != "KEYMAP"@ && key != "FONT"@ && key != "FONT_MAP"@ && key != "FONT_UNIMAP"@
            ==> apply_line(cfg, key + seq!['='] + value) == cfg,
{
    let ws = CharClass::Whitespace;
    let line = key + seq!['='] + value;
    let kl = key.len() as int;
    assert(line[0] == key[0]);
    lemma_lead_len(line, ws, 0);
    assert(line.skip(0) =~= line);
    lemma_trail_len_props(value, ws);
    let m = trail_len(value, ws) as int;
    assert forall|j: int| line.len() - m <= j < line.len() implies in_class(ws, #[trigger] line[j]) by {
        assert(line[j] == value[j - kl - 1]);
    }
    if m < value.len() {
        assert(line[line.len() - m - 1] == value[value.len() - m - 1]);
    } else {
        assert(line[line.len() - m - 1] == '=');
    }
    lemma_trail_len(line, ws, m);
    let vt = value.take(value.len() - m);
    let t = trim(line, ws);
    assert(t =~= key + seq!['='] + vt);
    let eq = CharClass::IsNot('=');
    assert forall|j: int| 0 <= j < kl implies in_class(eq, #[trigger] t[j]) by {
        assert(t[j] == key[j]);
    }
    assert(t[kl] == '=');
    lemma_lead_len(t, eq, kl);
    assert(t.take(kl) =~= key);
    lemma_lead_len(key, ws, 0);
    assert(key.skip(0) =~= key);
    assert(key[key.len() - 1] == key[kl - 1]);
    lemma_trail_len(key, ws, 0);
    assert(trim(key, ws) =~= key);
    assert(t.skip(kl + 1) =~= vt);
    lemma_trim_without_trailing(value, ws);
    assert(conf_value(vt) == conf_value(value));
    reveal_strlit("KEYMAP");
    reveal_strlit("FONT");
    reveal_strlit("FONT_MAP");
    reveal_strlit("FONT_UNIMAP");
    assert("KEYMAP"@.len() == 6 && "FONT"@.len() == 4 && "FONT_MAP"@.len() == 8 && "FONT_UNIMAP"@.len() == 11);
}

/// A line with no `=` in it, and a comment line (one whose first
/// character that is not whitespace is `#`), change no setting.
pub proof fn lemma_ignored_lines(cfg: ConfigView, line: Seq<char>, pad: Seq<char>, comment: Seq<char>)
    requires
        forall|i: int| 0 <= i < pad.len() ==> is_whitespace(#[trigger] pad[i]),
    ensures
        (forall|i: int| 0 <= i < line.len() ==> #[trigger] line[i] != '=') ==> apply_line(cfg, line) == cfg,
        apply_line(cfg, pad + seq!['#'] + comment) == cfg,
{
    let ws = CharClass::Whitespace;
    if forall|i: int| 0 <= i < line.len() ==> #[trigger] line[i] != '=' {
        lemma_lead_len_props(line, ws);
        let l = lead_len(line, ws) as int;
        let u = line.skip(l);
        let t = trim(line, ws);
        lemma_trail_len_props(u, ws);
        assert forall|j: int| 0 <= j < t.len() implies in_class(CharClass::IsNot('='), #[trigger] t[j]) by {
            assert(t[j] == line[j + l]);
        }
        lemma_lead_len(t, CharClass::IsNot('='), t.len() as int);
    }
    let c = pad + seq!['#'] + comment;
    let pl = pad.len() as int;
    assert forall|j: int| 0 <= j < pl implies in_class(ws, #[trigger] c[j]) by {
        assert(c[j] == pad[j]);
    }
    assert(c[pl] == '#');
    lemma_lead_len(c, ws, pl);
    let u = c.skip(pl);
    assert(u[0] == '#');
    lemma_trail_len_props(u, ws);
    assert(trail_len(u, ws) < u.len());
    assert(trim(c, ws)[0] == '#');
}

/// Applies the line `v[start..end]` of `text` to `cfg`.
fn apply_line_exec(cfg: &mut Config, text: &str, v: &Vec<char>, start: usize, end: usize)
    requires
        v@ == text@,
        start <= end <= v@.len(),
    ensures
        final(cfg)@ == apply_line(old(cfg)@, v@.subrange(start as int, end as int)),
{
    let (a, b) = trim_range(v, start, end, &CharClass::Whitespace);
    let ghost t = v@.subrange(a as int, b as int);
    if a == b || v[a] == '#' {
        return;
    }
    let j = skip_leading(v, a, b, &CharClass::IsNot('='));
    if j == b {
        return;
    }
    assert(t.take(j - a) == v@.subrange(a as int, j as int));
    assert(t.skip(j - a + 1) == v@.subrange(j + 1, b as int));
    let (ka, kb) = trim_range(v, a, j, &CharClass::Whitespace);
    let (va, vb) = trim_range(v, j + 1, b, &CharClass::Whitespace);
    let (va, vb) = trim_range(v, va, vb, &CharClass::Is('"'));
    let (va, vb) = trim_range(v, va, vb, &CharClass::Is('\''));
    let value = String::from_str(text.substring_char(va, vb));
    if range_is(v, ka, kb, "KEYMAP") {
        cfg.keymap = Some(value);
    } else if range_is(v, ka, kb, "FONT") {
        cfg.font = Some(value);
    } else if range_is(v, ka, kb, "FONT_MAP") {
        cfg.font_map = Some(value);
    } else if range_is(v, ka, kb, "FONT_UNIMAP") {
        cfg.font_unimap = Some(value);
    }
}

/// Reads the settings from the text of a vconsole configuration file: one
/// `KEY=value` per line, blank lines and `#` comments ignored, the value
/// trimmed and stripped of quotes; a later line overrides an earlier one.
pub fn parse_vconsole_conf(text: &str) -> (cfg: Config)
    ensures
        cfg@ == spec_parse_vconsole_conf(text@),
{
    let v = collect_chars(text);
    let len = v.len();
    let mut cfg = Config::default();
    let mut start: usize = 0;
    assert(v@.skip(0) == text@);
    loop
        invariant
            v@ == text@,
            len == v@.len(),
            start <= len,
            apply_lines(cfg@, v@.skip(start as int)) == spec_parse_vconsole_conf(text@),
        decreases len - start,
    {
        let end = skip_leading(&v, start, len, &CharClass::IsNot('\n'));
        let ghost s = v@.skip(start as int);
        assert(v@.subrange(start as int, len as int) == s);
        assert(s.take(end - start) == v@.subrange(start as int, end as int));
        apply_line_exec(&mut cfg, text, &v, start, end);
        if end == len {
            return cfg;
        }
        assert(s.skip(end - start + 1) == v@.skip(end + 1));
        start = end + 1;
    }
}

} // verus!
