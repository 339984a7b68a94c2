//! What is kept between runs, and what the host offers.

use crate::app::{self, App, AppV, Mode, MenuV, ToneMode};
use crate::effect::Locale;
use crate::json::{self, Json, JsonValue};
use crate::text;
use vstd::prelude::*;

verus! {

/// What was kept of an earlier run.
#[derive(Debug, PartialEq, Eq)]
pub struct UiSettings<S = String> {
    pub language: Locale,
    pub theme_mode: Option<S>,
    pub markdown_tone: Option<S>,
    pub ui_preset: S,
}

pub open spec fn locale_code(l: Locale) -> Seq<char> {
    match l {
        Locale::En => "en"@,
        Locale::Zh => "zh"@,
    }
}

fn code_of(l: Locale) -> (r: &'static str)
    ensures
        r@ == locale_code(l),
{
    match l {
        Locale::En => "en",
        Locale::Zh => "zh",
    }
}

/// The mode that a word stands for.
pub open spec fn mode_meant(t: Option<Seq<char>>) -> Option<Mode> {
    match t {
        Some(t) => if t == "dark"@ {
            Some(Mode::Dark)
        } else if t == "light"@ {
            Some(Mode::Light)
        } else {
            None
        },
        None => None,
    }
}

pub fn parse_mode(t: &Option<String>) -> (r: Option<Mode>)
    ensures
        r == mode_meant(text::opt_view(*t)),
{
    match t {
        Some(t) => if text::same(t.as_str(), "dark") {
            Some(Mode::Dark)
        } else if text::same(t.as_str(), "light") {
            Some(Mode::Light)
        } else {
            None
        },
        None => None,
    }
}

/// The tone that a word stands for.
pub open spec fn tone_meant(t: Option<Seq<char>>) -> Option<ToneMode> {
    match t {
        Some(t) => if t == "single"@ {
            Some(ToneMode::Single)
        } else if t == "two"@ {
            Some(ToneMode::Two)
        } else {
            None
        },
        None => None,
    }
}

pub fn parse_tone(t: &Option<String>) -> (r: Option<ToneMode>)
    ensures
        r == tone_meant(text::opt_view(*t)),
{
    match t {
        Some(t) => if text::same(t.as_str(), "single") {
            Some(ToneMode::Single)
        } else if text::same(t.as_str(), "two") {
            Some(ToneMode::Two)
        } else {
            None
        },
        None => None,
    }
}

/// The word that is saved for a tone stands for that tone.
pub proof fn law_saved_tone_is_meant(t: ToneMode)
    ensures
        tone_meant(Some(app::tone_name(t))) == Some(t),
{
    reveal_strlit("single");
    reveal_strlit("two");
    assert("single"@.len() != "two"@.len());
}

fn empty_object() -> (r: JsonValue)
    ensures
        r@ == Json::Object(Seq::empty()),
{
    let r = JsonValue::Object(Vec::new());
    assert(r@->Object_0 =~= Seq::empty());
    r
}

/// The settings to build on: an object as it was read, else an empty one.
pub open spec fn kept(read: Option<Json>) -> Json {
    match read {
        Some(Json::Object(o)) => Json::Object(o),
        _ => Json::Object(Seq::empty()),
    }
}

/// The settings with those of the screen set.
pub open spec fn saved(read: Option<Json>, l: Locale, m: Mode, tone: Seq<char>) -> Json {
    json::with_member(
        json::with_member(
            json::with_member(kept(read), "language"@, Json::Str(locale_code(l))),
            "themeMode"@,
            Json::Str(app::mode_name(m)),
        ),
        "markdownTone"@,
        Json::Str(tone),
    )
}

/// A settings file that holds something else than an object is put aside
/// before it is written over.
pub open spec fn put_aside(file: Option<Seq<char>>, read: Option<Json>) -> bool {
    !(read matches Some(Json::Object(_))) && (file matches Some(t) && text::trimmed(t).len() > 0)
}

/// Saving sets three members and leaves every other member of the file as it
/// was.
pub proof fn law_saving_keeps_other_settings(
    o: Seq<(Seq<char>, Json)>,
    l: Locale,
    m: Mode,
    tone: Seq<char>,
    key: Seq<char>,
)
    requires
        key != "language"@,
        key != "themeMode"@,
        key != "markdownTone"@,
    ensures
        json::member(saved(Some(Json::Object(o)), l, m, tone), key) == json::member(
            Json::Object(o),
            key,
        ),
{
    let a = json::with_member(Json::Object(o), "language"@, Json::Str(locale_code(l)));
    let b = json::with_member(a, "themeMode"@, Json::Str(app::mode_name(m)));
    json::lemma_with_member(Json::Object(o), "language"@, Json::Str(locale_code(l)));
    json::lemma_with_member(a, "themeMode"@, Json::Str(app::mode_name(m)));
    json::lemma_with_member(b, "markdownTone"@, Json::Str(tone));
}

/// What was saved is what is read back, whatever the file held before.
pub proof fn law_saved_settings_are_read_back(
    read: Option<Json>,
    l: Locale,
    m: Mode,
    tone: Seq<char>,
)
    ensures
        json::string_member(saved(read, l, m, tone), "language"@) == Some(locale_code(l)),
        json::string_member(saved(read, l, m, tone), "themeMode"@) == Some(app::mode_name(m)),
        json::string_member(saved(read, l, m, tone), "markdownTone"@) == Some(tone),
        mode_meant(json::string_member(saved(read, l, m, tone), "themeMode"@)) == Some(m),
{
    reveal_strlit("language");
    reveal_strlit("themeMode");
    reveal_strlit("markdownTone");
    reveal_strlit("dark");
    reveal_strlit("light");
    assert("language"@.len() != "themeMode"@.len());
    assert("language"@.len() != "markdownTone"@.len());
    assert("themeMode"@.len() != "markdownTone"@.len());
    assert("dark"@.len() != "light"@.len());
    let a = json::with_member(kept(read), "language"@, Json::Str(locale_code(l)));
    let b = json::with_member(a, "themeMode"@, Json::Str(app::mode_name(m)));
    json::lemma_with_member(kept(read), "language"@, Json::Str(locale_code(l)));
    json::lemma_with_member(a, "themeMode"@, Json::Str(app::mode_name(m)));
    json::lemma_with_member(b, "markdownTone"@, Json::Str(tone));
}

/// The model ids of a catalog: texts, and the ids of objects.
pub open spec fn catalog_ids(a: Seq<Json>) -> Seq<Seq<char>>
    decreases a.len(),
{
    if a.len() == 0 {
        Seq::empty()
    } else {
        let before = catalog_ids(a.drop_last());
        match a.last() {
            Json::Str(s) => before.push(s),
            Json::Object(o) => match json::string_member(a.last(), "id"@) {
                Some(id) => before.push(id),
                None => before,
            },
            _ => before,
        }
    }
}

/// The models that the host lists in its catalog; nothing where it lists
/// none.
pub open spec fn host_models(catalog: Json) -> Option<Seq<Seq<char>>> {
    match catalog {
        Json::Array(a) => if catalog_ids(a).len() > 0 {
            Some(catalog_ids(a))
        } else {
            None
        },
        _ => None,
    }
}

/// The models that a value lists.
pub fn host_catalog_models(catalog: &JsonValue) -> (r: Option<Vec<String>>)
    ensures
        match r {
            Some(v) => host_models(catalog@) == Some(text::views(v@)),
            None => host_models(catalog@) is None,
        },
{
    let items = match json::as_array(Some(catalog)) {
        Some(items) => items,
        None => return None,
    };
    let ghost all = json::seen_all(items@);
    let mut out: Vec<String> = Vec::new();
    let mut i: usize = 0;
    assert(text::views(out@) =~= Seq::empty());
    assert(all.take(0) =~= Seq::empty());
    while i < items.len()
        invariant
            i <= items@.len(),
            all == json::seen_all(items@),
            all.len() == items@.len(),
            text::views(out@) == catalog_ids(all.take(i as int)),
        decreases items@.len() - i,
    {
        let ghost before = text::views(out@);
        assert(all.take(i as int + 1).drop_last() =~= all.take(i as int));
        assert(all[i as int] == items@[i as int]@);
        match &items[i] {
            JsonValue::Str(s) => {
                out.push(s.clone());
                assert(text::views(out@) =~= before.push(s@));
            },
            JsonValue::Object(_) => {
                if let Some(id) = json::get_str(&items[i], "id") {
                    out.push(id.to_owned());
                    assert(text::views(out@) =~= before.push(id@));
                }
            },
            _ => {},
        }
        i = i + 1;
    }
    assert(all.take(i as int) =~= all);
    assert(text::views(out@).len() == out@.len());
    if out.len() == 0 {
        None
    } else {
        Some(out)
    }
}

/// The models that the host lists in the text of its catalog.
pub open spec fn models_in(raw: Seq<char>) -> Option<Seq<Seq<char>>> {
    match json::read_json(raw) {
        Some(j) => host_models(j),
        None => None,
    }
}

/// The models that the host lists in the text of its catalog; nothing where
/// that is no JSON or lists none.
pub fn host_catalog_of(raw: &str) -> (r: Option<Vec<String>>)
    ensures
        match r {
            Some(v) => json::read_json(raw@) matches Some(j) && host_models(j) == Some(
                text::views(v@),
            ),
            None => json::read_json(raw@) is None || host_models(json::read_json(raw@)->0) is None,
        },
{
    match json::parse_json(raw) {
        Some(v) => host_catalog_models(&v),
        None => None,
    }
}

/// The models in a catalog that was read; none where there is no catalog or it
/// lists none.
pub open spec fn models_read(raw: Option<Seq<char>>) -> Seq<Seq<char>> {
    match raw {
        Some(t) => match models_in(t) {
            Some(v) => v,
            None => Seq::empty(),
        },
        None => Seq::empty(),
    }
}

impl AppV {
    /// The host has listed its models.
    #[verifier::opaque]
    pub open spec fn hosted(self, raw: Option<Seq<char>>) -> AppV {
        AppV { menu: MenuV { host_models: models_read(raw), ..self.menu }, ..self }
    }
}

/// What is read out of a file, if there is one.
pub open spec fn read_of(file: Option<Seq<char>>) -> Option<Json> {
    match file {
        Some(t) => json::read_json(t),
        None => None,
    }
}

fn read_file(file: &Option<String>) -> (r: Option<JsonValue>)
    ensures
        crate::bus::opt_value_view(r) == read_of(text::opt_view(*file)),
{
    match file {
        Some(t) => json::parse_json(t.as_str()),
        None => None,
    }
}

/// A settings file is put aside exactly where it holds more than white space
/// and that is no JSON object.
pub proof fn law_unreadable_settings_are_kept(file: Option<Seq<char>>)
    ensures
        put_aside(file, read_of(file)) == (file matches Some(t) && text::trimmed(t).len() > 0
            && !(json::read_json(t) matches Some(Json::Object(_)))),
{
}

/// What is saved over a plain file is plain.
proof fn lemma_saved_plain(read: Option<Json>, l: Locale, m: Mode, tone: Seq<char>)
    requires
        read matches Some(j) ==> json::plain(j, json::depth_limit()),
    ensures
        json::plain(saved(read, l, m, tone), json::depth_limit()),
{
    reveal_strlit("language");
    reveal_strlit("themeMode");
    reveal_strlit("markdownTone");
    reveal_strlit("$serde_json::private::RawValue");
    reveal_strlit("$serde_json::private::Number");
    let d = json::depth_limit();
    assert("language"@[0] == 'l' && "themeMode"@[0] == 't' && "markdownTone"@[0] == 'm');
    assert("$serde_json::private::RawValue"@[0] == '$' && "$serde_json::private::Number"@[0]
        == '$');
    let k = kept(read);
    assert(json::plain(k, d));
    let a = json::with_member(k, "language"@, Json::Str(locale_code(l)));
    let b = json::with_member(a, "themeMode"@, Json::Str(app::mode_name(m)));
    json::lemma_with_member_plain(k, "language"@, Json::Str(locale_code(l)), d);
    json::lemma_with_member_plain(a, "themeMode"@, Json::Str(app::mode_name(m)), d);
    json::lemma_with_member_plain(b, "markdownTone"@, Json::Str(tone), d);
}

/// A text that holds what was saved gives back the three settings of the
/// screen, and every other member of the file that was there.
pub proof fn law_saved_text_gives_the_settings_back(
    t: Seq<char>,
    read: Option<Json>,
    l: Locale,
    m: Mode,
    tone: Seq<char>,
    key: Seq<char>,
)
    requires
        json::read_back(t, saved(read, l, m, tone)),
        read matches Some(j) ==> json::plain(j, json::depth_limit()),
    ensures
        ({
            let j = json::read_json(t)->0;
            &&& json::string_member(j, "language"@) == Some(locale_code(l))
            &&& mode_meant(json::string_member(j, "themeMode"@)) == Some(m)
            &&& json::string_member(j, "markdownTone"@) == Some(tone)
            &&& key != "language"@ && key != "themeMode"@ && key != "markdownTone"@
                ==> match (json::member(j, key), json::member(kept(read), key)) {
                (Some(x), Some(y)) => json::same_json(x, y),
                (None, None) => true,
                _ => false,
            }
        }),
{
    let j = json::read_json(t)->0;
    let s = saved(read, l, m, tone);
    lemma_saved_plain(read, l, m, tone);
    json::lemma_plain_is_sound(s, json::depth_limit());
    law_saved_settings_are_read_back(read, l, m, tone);
    json::lemma_same_member(j, s, "language"@);
    json::lemma_same_member(j, s, "themeMode"@);
    json::lemma_same_member(j, s, "markdownTone"@);
    json::lemma_same_member(j, s, key);
    if key != "language"@ && key != "themeMode"@ && key != "markdownTone"@ {
        law_saving_keeps_other_settings(kept(read)->Object_0, l, m, tone, key);
    }
}

impl App {
    /// The settings to write, given the text of the file there is and what was
    /// read out of it; and whether that file is put aside first.
    pub fn settings_to_save(&self, file: &Option<String>, read: Option<JsonValue>) -> (r: (
        JsonValue,
        bool,
    ))
        ensures
            r.0@ == saved(
                crate::bus::opt_value_view(read),
                self@.base.locale,
                self@.theme.mode,
                app::tone_name(self@.base.tone),
            ),
            r.1 == put_aside(text::opt_view(*file), crate::bus::opt_value_view(read)),
    {
        let mut aside = false;
        let mut value = match read {
            Some(JsonValue::Object(o)) => JsonValue::Object(o),
            _ => {
                aside = match file {
                    Some(t) => {
                        let trimmed = text::trim(t.as_str());
                        !trimmed.as_str().is_empty()
                    },
                    None => false,
                };
                empty_object()
            },
        };
        assert(value@ == kept(crate::bus::opt_value_view(read)));
        json::set_member(
            &mut value,
            "language",
            JsonValue::Str(code_of(self.base.locale).to_owned()),
        );
        json::set_member(
            &mut value,
            "themeMode",
            JsonValue::Str(self.theme.mode.as_str().to_owned()),
        );
        json::set_member(
            &mut value,
            "markdownTone",
            JsonValue::Str(self.base.tone.as_str().to_owned()),
        );
        (value, aside)
    }

    /// Takes the text of the catalog in which the host lists its models, where
    /// it has one.
    pub(crate) fn take_host_models(&mut self, raw: Option<String>)
        ensures
            final(self)@ == old(self)@.hosted(text::opt_view(raw)),
    {
        proof {
            reveal(AppV::hosted);
        }
        let listed = match &raw {
            Some(t) => host_catalog_of(t.as_str()),
            None => None,
        };
        self.menu.host_models = match listed {
            Some(v) => v,
            None => Vec::new(),
        };
        assert(self@.menu.host_models =~= models_read(text::opt_view(raw)));
    }

    /// The settings to write over a file, given its text; and whether the file
    /// is put aside first.
    pub fn settings_of_file(&self, file: &Option<String>) -> (r: (JsonValue, bool))
        ensures
            r.0@ == saved(
                read_of(text::opt_view(*file)),
                self@.base.locale,
                self@.theme.mode,
                app::tone_name(self@.base.tone),
            ),
            r.1 == put_aside(text::opt_view(*file), read_of(text::opt_view(*file))),
    {
        let read = read_file(file);
        self.settings_to_save(file, read)
    }

    /// The text to write over a settings file, given the text that it holds;
    /// and whether the file is put aside first. Of a plain file every setting
    /// is read back from the new text.
    pub fn settings_text(&self, file: &Option<String>) -> (r: (Option<String>, bool))
        ensures
            ({
                let read = read_of(text::opt_view(*file));
                let s = saved(
                    read,
                    self@.base.locale,
                    self@.theme.mode,
                    app::tone_name(self@.base.tone),
                );
                &&& text::opt_view(r.0) == json::pretty_json(json::stored(s))
                &&& (read matches Some(j) ==> json::plain(j, json::depth_limit())) ==> (
                r.0 matches Some(t) && json::read_back(t@, s))
                &&& r.1 == put_aside(text::opt_view(*file), read)
            }),
    {
        let (value, aside) = self.settings_of_file(file);
        proof {
            let read = read_of(text::opt_view(*file));
            if read matches Some(j) ==> json::plain(j, json::depth_limit()) {
                lemma_saved_plain(
                    read,
                    self@.base.locale,
                    self@.theme.mode,
                    app::tone_name(self@.base.tone),
                );
            }
        }
        (json::pretty_text(&value), aside)
    }
}

} // verus!
