//! The store's file format: one `key = value` line per configuration key, in
//! a fixed order. Rendering and parsing are exact inverses on every valid
//! record, which is what makes a saved configuration load back as itself.
use crate::autocommit_config::AutocommitConfig;
use crate::config_data::ConfigData;
use crate::config_item::ConfigValue;
use crate::config_key::{key_name_spec, key_order, ConfigKey};
use crate::strutil::{lemma_line_end_at, line_end, line_free, read_line_value, seq_contains_char, starts_at, starts_with};
use vstd::prelude::*;

verus! {

/// One rendered line: the key's name, a separator, the printed value, and a
/// line break.
pub open spec fn render_line(k: ConfigKey, value: Seq<char>) -> Seq<char> {
    key_name_spec(k) + " = "@ + value + "\n"@
}

/// The rendering of the first `i` keys.
pub open spec fn render_upto(vals: Seq<Seq<char>>, i: int) -> Seq<char>
    decreases i,
{
    if i <= 0 {
        Seq::<char>::empty()
    } else {
        render_upto(vals, i - 1) + render_line(key_order()[i - 1], vals[i - 1])
    }
}

/// The rendering of the keys from `i` on.
pub open spec fn render_from(vals: Seq<Seq<char>>, i: int) -> Seq<char>
    decreases key_order().len() - i,
{
    if i < 0 || i >= key_order().len() {
        Seq::<char>::empty()
    } else {
        render_line(key_order()[i], vals[i]) + render_from(vals, i + 1)
    }
}

/// The whole file for the given printed values.
pub open spec fn render_spec(vals: Seq<Seq<char>>) -> Seq<char> {
    render_from(vals, 0)
}

/// Rendering the first `i` keys and then the rest renders everything.
pub proof fn lemma_render_split(vals: Seq<Seq<char>>, i: int)
    requires
        0 <= i <= key_order().len(),
    ensures
        render_upto(vals, i) + render_from(vals, i) == render_spec(vals),
    decreases i,
{
    if i == 0 {
        assert(render_upto(vals, 0) + render_from(vals, 0) =~= render_from(vals, 0));
    } else {
        lemma_render_split(vals, i - 1);
        assert(render_upto(vals, i) + render_from(vals, i) =~= render_upto(vals, i - 1)
            + (render_line(key_order()[i - 1], vals[i - 1]) + render_from(vals, i)));
        assert(render_line(key_order()[i - 1], vals[i - 1]) + render_from(vals, i) == render_from(
            vals,
            i - 1,
        ));
    }
}




/// The raw values read from `s` for the keys from `i` on, starting at `pos`;
/// `None` when the text does not have the file's shape.
pub open spec fn parse_from(s: Seq<char>, i: int, pos: int) -> Option<Seq<Seq<char>>>
    decreases key_order().len() - i,
{
    if i < 0 || i >= key_order().len() {
        if pos == s.len() {
            Some(Seq::<Seq<char>>::empty())
        } else {
            None
        }
    } else {
        let prefix = key_name_spec(key_order()[i]) + " = "@;
        if starts_with(s, pos, prefix) {
            let vstart = pos + prefix.len();
            let vend = line_end(s, vstart);
            if vend < s.len() {
                match parse_from(s, i + 1, vend + 1) {
                    Some(rest) => Some(seq![s.subrange(vstart, vend)] + rest),
                    None => None,
                }
            } else {
                None
            }
        } else {
            None
        }
    }
}

/// The raw values read from a whole file.
pub open spec fn parse_spec(s: Seq<char>) -> Option<Seq<Seq<char>>> {
    parse_from(s, 0, 0)
}

/// Every value fits on a line.
pub open spec fn all_line_free(vals: Seq<Seq<char>>) -> bool {
    forall|i: int| 0 <= i < vals.len() ==> line_free(#[trigger] vals[i])
}

/// Parsing reads a rendering back: from any position holding the rendering of
/// the keys from `i` on, the reader recovers exactly the rendered values.
pub proof fn lemma_parse_render_from(s: Seq<char>, vals: Seq<Seq<char>>, i: int, pos: int)
    requires
        vals.len() == key_order().len(),
        all_line_free(vals),
        0 <= i <= key_order().len(),
        0 <= pos <= s.len(),
        s.subrange(pos, s.len() as int) == render_from(vals, i),
    ensures
        parse_from(s, i, pos) == Some(vals.skip(i)),
    decreases key_order().len() - i,
{
    let n = key_order().len() as int;
    if i >= n {
        assert(render_from(vals, i).len() == 0);
        assert(pos == s.len());
        assert(vals.skip(i) =~= Seq::<Seq<char>>::empty());
    } else {
        let prefix = key_name_spec(key_order()[i]) + " = "@;
        let v = vals[i];
        let line = render_line(key_order()[i], v);
        let rest = render_from(vals, i + 1);
        assert(s.subrange(pos, s.len() as int) == line + rest);
        assert(line == prefix + v + "\n"@);
        reveal_strlit("\n");
        assert(("\n"@).len() == 1 && ("\n"@)[0] == '\n');
        let remainder = s.subrange(pos, s.len() as int);
        assert(remainder.len() == line.len() + rest.len());
        assert(pos + remainder.len() == s.len());
        // the prefix is present at pos
        assert(s.subrange(pos, pos + prefix.len()) =~= prefix) by {
            assert forall|j: int| 0 <= j < prefix.len() implies s.subrange(
                pos,
                pos + prefix.len(),
            )[j] == prefix[j] by {
                assert(s.subrange(pos, pos + prefix.len())[j] == remainder[j]);
                assert(remainder[j] == (line + rest)[j]);
                assert((line + rest)[j] == line[j]);
                assert(line[j] == ((prefix + v) + "\n"@)[j]);
                assert(((prefix + v) + "\n"@)[j] == (prefix + v)[j]);
                assert((prefix + v)[j] == prefix[j]);
            }
        }
        assert(starts_with(s, pos, prefix));
        let vstart = pos + prefix.len();
        let vend = vstart + v.len();
        // the value's characters sit between vstart and vend, then a break
        assert forall|j: int| vstart <= j < vend implies s[j] != '\n' by {
            assert(s[j] == remainder[j - pos]);
            assert(remainder[j - pos] == line[j - pos]);
            assert(line[j - pos] == ((prefix + v) + "\n"@)[j - pos]);
            assert(((prefix + v) + "\n"@)[j - pos] == (prefix + v)[j - pos]);
            assert((prefix + v)[j - pos] == v[j - pos - prefix.len()]);
            assert(line_free(v));
            assert(!seq_contains_char(v, '\n'));
            assert(v[j - pos - prefix.len()] != '\n');
        }
        assert(s[vend] == '\n') by {
            assert(s[vend] == remainder[vend - pos]);
            assert(remainder[vend - pos] == line[vend - pos]);
            assert(line[vend - pos] == ((prefix + v) + "\n"@)[vend - pos]);
            assert(vend - pos == (prefix + v).len());
            assert(((prefix + v) + "\n"@)[vend - pos] == ("\n"@)[0]);
        }
        lemma_line_end_at(s, vstart, vend);
        assert(line_end(s, vstart) == vend);
        assert(vend < s.len());
        // the read value is the rendered one
        assert(s.subrange(vstart, vend) =~= v) by {
            assert forall|j: int| 0 <= j < v.len() implies s.subrange(vstart, vend)[j] == v[j] by {
                assert(s.subrange(vstart, vend)[j] == s[vstart + j]);
                assert(s[vstart + j] == remainder[vstart + j - pos]);
                assert(remainder[vstart + j - pos] == line[vstart + j - pos]);
                assert(line[vstart + j - pos] == ((prefix + v) + "\n"@)[vstart + j - pos]);
                assert(((prefix + v) + "\n"@)[vstart + j - pos] == (prefix + v)[prefix.len() + j]);
                assert((prefix + v)[prefix.len() + j] == v[j]);
            }
        }
        // what remains after the break is the rendering of the rest
        assert(s.subrange(vend + 1, s.len() as int) =~= rest) by {
            assert forall|j: int| 0 <= j < rest.len() implies s.subrange(
                vend + 1,
                s.len() as int,
            )[j] == rest[j] by {
                assert(s.subrange(vend + 1, s.len() as int)[j] == s[vend + 1 + j]);
                assert(s[vend + 1 + j] == remainder[vend + 1 + j - pos]);
                assert(vend + 1 - pos == line.len());
                assert(remainder[line.len() + j] == (line + rest)[line.len() + j]);
                assert((line + rest)[line.len() + j] == rest[j]);
            }
        }
        lemma_parse_render_from(s, vals, i + 1, vend + 1);
        assert(parse_from(s, i + 1, vend + 1) == Some(vals.skip(i + 1)));
        assert(seq![s.subrange(vstart, vend)] + vals.skip(i + 1) =~= vals.skip(i));
    }
}

/// Parsing reads a whole rendering back.
pub proof fn lemma_parse_render_roundtrip(vals: Seq<Seq<char>>)
    requires
        vals.len() == key_order().len(),
        all_line_free(vals),
    ensures
        parse_spec(render_spec(vals)) == Some(vals),
{
    let s = render_spec(vals);
    assert(s.subrange(0, s.len() as int) =~= render_from(vals, 0));
    lemma_parse_render_from(s, vals, 0, 0);
    assert(vals.skip(0) =~= vals);
}

/// A valid record's printed values are line-free, read back unchanged, and
/// are accepted by their own slots.
pub proof fn lemma_config_reps_wf(c: ConfigData)
    requires
        c.inv(),
    ensures
        c.reps().len() == key_order().len(),
        all_line_free(c.reps()),
        forall|i: int|
            0 <= i < key_order().len() ==> ConfigData::accepts_value(
                key_order()[i],
                #[trigger] c.reps()[i],
            ) && ConfigData::canon_value(key_order()[i], c.reps()[i]) == c.reps()[i],
{
    c.description_enabled.value.lemma_rep_roundtrip();
    c.emoji_enabled.value.lemma_rep_roundtrip();
    c.language.value.lemma_rep_roundtrip();
    c.name.value.lemma_rep_roundtrip();
    c.email.value.lemma_rep_roundtrip();
    c.default_commit_message.value.lemma_rep_roundtrip();
    c.default_commit_behavior.value.lemma_rep_roundtrip();
    c.default_push_behavior.value.lemma_rep_roundtrip();
    c.open_ai_api_key.value.lemma_rep_roundtrip();
    c.api_host.value.lemma_rep_roundtrip();
    c.open_ai_model.value.lemma_rep_roundtrip();
    assert forall|i: int| 0 <= i < key_order().len() implies line_free(#[trigger] c.reps()[i])
        && ConfigData::accepts_value(key_order()[i], c.reps()[i]) && ConfigData::canon_value(
        key_order()[i],
        c.reps()[i],
    ) == c.reps()[i] by {
        assert(c.reps()[i] == c.rep_of(key_order()[i]));
    }
}

/// Saving a valid record and loading the saved text yields the same printed
/// value for every key: the store's save/load round trip loses nothing.
pub proof fn lemma_save_load_roundtrip(c: ConfigData)
    requires
        c.inv(),
    ensures
        parse_spec(render_spec(c.reps())) == Some(c.reps()),
        forall|i: int|
            0 <= i < key_order().len() ==> ConfigData::accepts_value(
                key_order()[i],
                #[trigger] c.reps()[i],
            ) && ConfigData::canon_value(key_order()[i], c.reps()[i]) == c.reps()[i],
{
    lemma_config_reps_wf(c);
    lemma_parse_render_roundtrip(c.reps());
}

/// Equal printed values mean equal session preferences: a loaded record that
/// prints every key as the saved one did yields the same snapshot. Together
/// with the save/load round trip above, saving a valid record and loading the
/// saved text reproduces the session preferences exactly.
pub proof fn lemma_equal_prints_equal_preferences(c: ConfigData, loaded: ConfigData)
    requires
        c.inv(),
        loaded.inv(),
        forall|i: int| 0 <= i < key_order().len() ==> #[trigger] loaded.reps()[i] == c.reps()[i],
    ensures
        crate::config_data::prefs_spec(loaded) == crate::config_data::prefs_spec(c),
{
    assert forall|k: ConfigKey| loaded.rep_of(k) == c.rep_of(k) by {
        let i: int = match k {
            ConfigKey::DescriptionEnabled => 0,
            ConfigKey::EmojiEnabled => 1,
            ConfigKey::Language => 2,
            ConfigKey::Name => 3,
            ConfigKey::Email => 4,
            ConfigKey::DefaultCommitMessage => 5,
            ConfigKey::DefaultCommitBehavior => 6,
            ConfigKey::DefaultPushBehavior => 7,
            ConfigKey::OpenAiApiKey => 8,
            ConfigKey::ApiHost => 9,
            ConfigKey::OpenAiModel => 10,
        };
        assert(key_order()[i] == k);
        assert(loaded.reps()[i] == loaded.rep_of(k));
        assert(c.reps()[i] == c.rep_of(k));
    }
    crate::config_data::lemma_reps_determine_prefs(loaded, c);
}

/// Renders a record as the store's file text.
pub fn render_config(c: &ConfigData) -> (out: String)
    ensures
        out@ == render_spec(c.reps()),
{
    let keys = ConfigKey::all_keys();
    let mut out = String::new();
    let mut i: usize = 0;
    while i < keys.len()
        invariant
            keys@ == key_order(),
            i <= keys@.len(),
            out@ == render_upto(c.reps(), i as int),
        decreases keys@.len() - i,
    {
        let key = keys[i];
        let name = key.name();
        out.append(name.as_str());
        out.append(" = ");
        let value = c.get_value(&key);
        out.append(value.as_str());
        out.append("\n");
        proof {
            assert(c.reps()[i as int] == c.rep_of(key_order()[i as int]));
            assert(out@ =~= render_upto(c.reps(), i + 1));
        }
        i = i + 1;
    }
    proof {
        lemma_render_split(c.reps(), key_order().len() as int);
        assert(out@ =~= render_spec(c.reps()));
    }
    out
}



/// Reads the raw value of each key from the store's file text. `None` exactly
/// when the text does not have the file's shape.
pub fn parse_raw_values(s: &str) -> (r: Option<Vec<String>>)
    ensures
        match r {
            Some(vals) => vals@.len() == key_order().len() && parse_spec(s@) == Some(
                vals.deep_view(),
            ),
            None => parse_spec(s@) is None,
        },
{
    let keys = ConfigKey::all_keys();
    let n = s.unicode_len();
    let mut vals: Vec<String> = Vec::new();
    let mut pos: usize = 0;
    let mut i: usize = 0;
    while i < keys.len()
        invariant
            keys@ == key_order(),
            n == s@.len(),
            i <= keys@.len(),
            pos <= n,
            vals@.len() == i,
            parse_from(s@, 0, 0) == match parse_from(s@, i as int, pos as int) {
                Some(rest) => Some(vals.deep_view() + rest),
                None => None,
            },
        decreases keys@.len() - i,
    {
        let key = keys[i];
        let name = key.name();
        let mut prefix = name;
        prefix.append(" = ");
        proof {
            assert(prefix@ == key_name_spec(key_order()[i as int]) + " = "@);
        }
        if !starts_at(s, pos, prefix.as_str()) {
            proof {
                assert(parse_from(s@, i as int, pos as int) is None);
            }
            return None;
        }
        let plen = prefix.unicode_len();
        let vstart = pos + plen;
        let (value, vend) = read_line_value(s, vstart);
        if vend == n {
            proof {
                assert(line_end(s@, vstart as int) == s@.len());
                assert(parse_from(s@, i as int, pos as int) is None);
            }
            return None;
        }
        proof {
            assert(parse_from(s@, i as int, pos as int) == (match parse_from(
                s@,
                i + 1 as int,
                vend + 1 as int,
            ) {
                Some(rest) => Some(seq![s@.subrange(vstart as int, vend as int)] + rest),
                None => None,
            }));
        }
        let ghost prev_vals = vals.deep_view();
        vals.push(value);
        proof {
            assert(vals.deep_view() =~= prev_vals.push(s@.subrange(vstart as int, vend as int)));
            match parse_from(s@, i + 1 as int, vend + 1 as int) {
                Some(rest) => {
                    assert(prev_vals + (seq![s@.subrange(vstart as int, vend as int)] + rest)
                        =~= vals.deep_view() + rest);
                },
                None => {},
            }
        }
        pos = vend + 1;
        i = i + 1;
    }
    if pos != n {
        proof {
            assert(parse_from(s@, i as int, pos as int) is None);
        }
        return None;
    }
    proof {
        assert(parse_from(s@, i as int, pos as int) == Some(Seq::<Seq<char>>::empty()));
        assert(vals.deep_view() + Seq::<Seq<char>>::empty() =~= vals.deep_view());
    }
    Some(vals)
}

/// Builds a record from one raw value per key, in the file's key order. `None`
/// exactly when some value is one its slot refuses.
pub fn build_config(vals: &Vec<String>) -> (r: Option<ConfigData>)
    requires
        vals@.len() == key_order().len(),
    ensures
        match r {
            Some(c) => {
                &&& c.inv()
                &&& forall|i: int|
                    0 <= i < key_order().len() ==> #[trigger] c.reps()[i]
                        == ConfigData::canon_value(key_order()[i], vals.deep_view()[i])
            },
            None => exists|i: int|
                0 <= i < key_order().len() && !ConfigData::accepts_value(
                    key_order()[i],
                    #[trigger] vals.deep_view()[i],
                ),
        },
{
    let keys = ConfigKey::all_keys();
    let empty_name = String::new();
    let empty_email = String::new();
    let base = match AutocommitConfig::new(empty_name, empty_email) {
        Ok(c) => c,
        Err(_) => {
            proof {
                assert(false);
            }
            return None;
        },
    };
    let mut config = base.config_data;
    let mut k: usize = 0;
    proof {
        assert(forall|a: int, b: int|
            0 <= a < b < key_order().len() ==> key_order()[a] != key_order()[b]);
    }
    while k < keys.len()
        invariant
            keys@ == key_order(),
            vals@.len() == keys@.len(),
            k <= keys@.len(),
            config.inv(),
            forall|j: int|
                0 <= j < k ==> #[trigger] config.rep_of(keys@[j]) == ConfigData::canon_value(
                    keys@[j],
                    vals.deep_view()[j],
                ),
            forall|a: int, b: int|
                0 <= a < b < key_order().len() ==> key_order()[a] != key_order()[b],
        decreases keys@.len() - k,
    {
        let key = keys[k];
        let ghost old_config = config;
        let outcome = config.update_config(&key, vals[k].as_str());
        if outcome.is_err() {
            proof {
                assert(vals@[k as int]@ == vals.deep_view()[k as int]);
                assert(!ConfigData::accepts_value(
                    key_order()[k as int],
                    vals.deep_view()[k as int],
                ));
            }
            return None;
        }
        proof {
            assert(vals@[k as int]@ == vals.deep_view()[k as int]);
            assert forall|j: int| 0 <= j < k + 1 implies #[trigger] config.rep_of(keys@[j])
                == ConfigData::canon_value(keys@[j], vals.deep_view()[j]) by {
                if j < k {
                    assert(keys@[j] != keys@[k as int]);
                    assert(config.rep_of(keys@[j]) == old_config.rep_of(keys@[j]));
                }
            }
        }
        k = k + 1;
    }
    proof {
        assert forall|i2: int| 0 <= i2 < key_order().len() implies #[trigger] config.reps()[i2]
            == ConfigData::canon_value(key_order()[i2], vals.deep_view()[i2]) by {
            assert(config.reps()[i2] == config.rep_of(key_order()[i2]));
        }
    }
    Some(config)
}

/// Reads a record back from the store's file text. `None` exactly when the
/// text does not have the file's shape or a value is one its slot refuses.
#[verifier::rlimit(60)]
pub fn parse_config(s: &str) -> (r: Option<ConfigData>)
    ensures
        r is Some ==> r->Some_0.inv(),
        r is Some ==> parse_spec(s@) is Some,
        r is Some ==> forall|i: int|
            0 <= i < key_order().len() ==> #[trigger] r->Some_0.reps()[i]
                == ConfigData::canon_value(key_order()[i], parse_spec(s@)->Some_0[i]),
        r is None ==> parse_spec(s@) is None || (exists|i: int|
            0 <= i < key_order().len() && !ConfigData::accepts_value(
                key_order()[i],
                #[trigger] parse_spec(s@)->Some_0[i],
            )),
{
    let vals = match parse_raw_values(s) {
        Some(vals) => vals,
        None => {
            return None;
        },
    };
    match build_config(&vals) {
        Some(c) => {
            proof {
                let ghost vs = vals.deep_view();
                assert(parse_spec(s@) == Some(vs));
                assert(forall|i: int|
                    0 <= i < key_order().len() ==> #[trigger] c.reps()[i]
                        == ConfigData::canon_value(key_order()[i], vs[i]));
            }
            Some(c)
        },
        None => {
            proof {
                assert(parse_spec(s@)->Some_0 == vals.deep_view());
                let w = choose|i: int|
                    0 <= i < key_order().len() && !ConfigData::accepts_value(
                        key_order()[i],
                        #[trigger] vals.deep_view()[i],
                    );
                assert(!ConfigData::accepts_value(
                    key_order()[w],
                    parse_spec(s@)->Some_0[w],
                ));
            }
            None
        },
    }
}

} // verus!
