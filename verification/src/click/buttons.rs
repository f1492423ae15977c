//! The buttons of a click command, and the items generated for them.

use super::error::{ClickError, ClickFault, MAX_BUTTONS};
use super::link::Link;
use super::parse::{
    clicks_of, parse_clicks, parse_clicks_spec, style_name, ButtonStyle, Click, ClickSpec,
};
use crate::decimal::{decimal_chars, push_decimal};
use crate::text::{chars_of, push_char, str_eq};
use std::collections::HashMap;
use vstd::prelude::*;
use vstd::string::StringExecFns;

verus! {

broadcast use vstd::std_specs::hash::group_hash_axioms;

/// The labels of the buttons `cs`, in order.
pub open spec fn labels_of(cs: Seq<ClickSpec>) -> Seq<Seq<char>> {
    cs.map_values(|c: ClickSpec| c.1)
}

/// The styles of the buttons `cs`, in order.
pub open spec fn styles_of(cs: Seq<ClickSpec>) -> Seq<ButtonStyle> {
    cs.map_values(|c: ClickSpec| c.0)
}

/// The links of the buttons `cs`, each with the position of its button, in order.
pub open spec fn links_of(cs: Seq<ClickSpec>) -> Seq<(int, Seq<char>)>
    decreases cs.len(),
{
    if cs.len() == 0 {
        Seq::empty()
    } else {
        match cs.last().2 {
            Some(url) => links_of(cs.drop_last()).push(((cs.len() - 1) as int, url)),
            None => links_of(cs.drop_last()),
        }
    }
}

/// The links of the buttons `cs`, each known by the position of its button.
pub open spec fn links_map(cs: Seq<ClickSpec>) -> Map<usize, Seq<char>>
    decreases cs.len(),
{
    if cs.len() == 0 {
        Map::empty()
    } else {
        match cs.last().2 {
            Some(url) => links_map(cs.drop_last()).insert((cs.len() - 1) as usize, url),
            None => links_map(cs.drop_last()),
        }
    }
}

/// Every link of `links_map` is known by the position of a button.
proof fn lemma_links_map_keys(cs: Seq<ClickSpec>)
    requires
        cs.len() <= usize::MAX,
    ensures
        forall|k: usize| #[trigger] links_map(cs).contains_key(k) ==> k < cs.len(),
    decreases cs.len(),
{
    if cs.len() > 0 {
        let d = cs.drop_last();
        lemma_links_map_keys(d);
        assert forall|k: usize| #[trigger] links_map(cs).contains_key(k) implies k < cs.len() by {
            if links_map(d).contains_key(k) {
                assert(k < d.len());
            }
        }
    }
}

/// The button at position `j` has a link exactly when `links_map` knows one
/// at `j`, and it is that link.
proof fn lemma_links_map(cs: Seq<ClickSpec>, j: int)
    requires
        0 <= j < cs.len(),
        cs.len() <= usize::MAX,
    ensures
        links_map(cs).contains_key(j as usize) == (cs[j].2 is Some),
        cs[j].2 matches Some(u) ==> links_map(cs)[j as usize] == u,
    decreases cs.len(),
{
    let d = cs.drop_last();
    if j < cs.len() - 1 {
        lemma_links_map(d, j);
        assert(d[j] == cs[j]);
    } else {
        lemma_links_map_keys(d);
        assert(!links_map(d).contains_key(j as usize));
    }
}

/// The labels of the buttons.
#[derive(Debug, Clone)]
pub struct Labels(pub Vec<String>);

/// The styles of the buttons.
#[derive(Debug, Clone)]
pub struct Styles(pub Vec<ButtonStyle>);

/// The links of the link buttons, each known by the position of its button.
#[derive(Debug, Clone)]
pub struct Links(HashMap<usize, Link>);

impl Labels {
    /// The labels.
    pub open spec fn view(&self) -> Seq<Seq<char>> {
        self.0@.map_values(|s: String| s@)
    }
}

impl Links {
    /// The links, each known by the position of its button.
    pub closed spec fn view(&self) -> Map<usize, Seq<char>> {
        self.0@.map_values(|l: Link| l@)
    }

    /// The number of links.
    pub fn len(&self) -> (r: usize)
        ensures
            r == self@.len(),
    {
        proof {
            assert(self.0@.map_values(|l: Link| l@).dom() =~= self.0@.dom());
        }
        self.0.len()
    }

    /// The link of the button at position `pos`, if that button is a link
    /// button.
    pub fn get(&self, pos: usize) -> (r: Option<&Link>)
        ensures
            match r {
                Some(l) => self@.contains_key(pos) && self@[pos] == l@,
                None => !self@.contains_key(pos),
            },
    {
        self.0.get(&pos)
    }
}

/// The buttons of a click command.
#[derive(Debug, Clone)]
pub struct Buttons {
    pub labels: Labels,
    pub styles: Styles,
    pub links: Links,
    pub size: usize,
}

impl Buttons {
    /// Whether these are the buttons `cs`.
    pub open spec fn holds(&self, cs: Seq<ClickSpec>) -> bool {
        &&& self.labels@ == labels_of(cs)
        &&& self.styles.0@ == styles_of(cs)
        &&& self.links@ == links_map(cs)
        &&& self.size == cs.len()
    }

    /// The buttons `clicks`, in order.
    pub fn from_clicks(clicks: &Vec<Click>) -> (r: Buttons)
        ensures
            r.holds(clicks_of(clicks@)),
    {
        let ghost cs = clicks_of(clicks@);
        let mut labels: Vec<String> = Vec::new();
        let mut styles: Vec<ButtonStyle> = Vec::new();
        let mut links: HashMap<usize, Link> = HashMap::new();
        let mut size: usize = 0;
        let len = clicks.len();
        while size < len
            invariant
                size <= len,
                len == clicks@.len(),
                cs == clicks_of(clicks@),
                labels@.map_values(|s: String| s@) == labels_of(cs.take(size as int)),
                styles@ == styles_of(cs.take(size as int)),
                links@.map_values(|l: Link| l@) == links_map(cs.take(size as int)),
            decreases len - size,
        {
            let c = &clicks[size];
            let ghost before = cs.take(size as int);
            let ghost after = cs.take(size + 1);
            assert(after.drop_last() =~= before);
            assert(after.last() == c@);
            let lab = c.label().clone();
            assert(lab@ == c@.1);
            let ghost old_labels = labels@;
            labels.push(lab);
            assert(labels@.map_values(|s: String| s@) =~= old_labels.map_values(|s: String| s@).push(
                c@.1,
            ));
            styles.push(c.style());
            let ghost old_links = links@;
            match c.link() {
                Some(l) => {
                    links.insert(size, l.clone());
                    assert(links@.map_values(|l: Link| l@) =~= old_links.map_values(|l: Link| l@).insert(
                        size,
                        l@,
                    ));
                },
                None => {},
            }
            assert(labels@.map_values(|s: String| s@) =~= labels_of(after));
            assert(styles@ =~= styles_of(after));
            assert(links@.map_values(|l: Link| l@) =~= links_map(after));
            size += 1;
        }
        assert(cs.take(len as int) =~= cs);
        Buttons { labels: Labels(labels), styles: Styles(styles), links: Links(links), size }
    }

    /// The buttons that the arguments `s` of a `buttons` attribute declare.
    pub fn parse(s: &str) -> (r: Result<Buttons, ClickError>)
        ensures
            match parse_clicks_spec(s@) {
                Ok(cs) => r matches Ok(b) && b.holds(cs),
                Err(e) => r matches Err(x) && x@ == e,
            },
    {
        match parse_clicks(s) {
            Ok(clicks) => Ok(Buttons::from_clicks(&clicks)),
            Err(e) => Err(e),
        }
    }
}

/// How the character `c` is written inside a string literal.
pub open spec fn escaped(c: char) -> Seq<char> {
    if c == '"' {
        seq!['\\', '"']
    } else if c == '\\' {
        seq!['\\', '\\']
    } else if c == '\n' {
        seq!['\\', 'n']
    } else if c == '\r' {
        seq!['\\', 'r']
    } else if c == '\t' {
        seq!['\\', 't']
    } else if c == '\0' {
        seq!['\\', '0']
    } else {
        seq![c]
    }
}

/// How the characters `s` are written inside a string literal.
pub open spec fn escape_str(s: Seq<char>) -> Seq<char>
    decreases s.len(),
{
    if s.len() == 0 {
        Seq::empty()
    } else {
        escape_str(s.drop_last()) + escaped(s.last())
    }
}

/// The string literal that stands for the characters `s`.
pub open spec fn quoted(s: Seq<char>) -> Seq<char> {
    seq!['"'] + escape_str(s) + seq!['"']
}

/// The labels `ls` as the elements of an array of string literals.
pub open spec fn labels_text(ls: Seq<Seq<char>>) -> Seq<char>
    decreases ls.len(),
{
    if ls.len() == 0 {
        Seq::empty()
    } else {
        labels_text(ls.drop_last()) + quoted(ls.last()) + ", "@
    }
}

/// The path of the style type of the generated items.
pub open spec fn style_path() -> Seq<char> {
    "twilight_model::application::component::button::ButtonStyle"@
}

/// The styles `ss` as the elements of an array of style values.
pub open spec fn styles_text(ss: Seq<ButtonStyle>) -> Seq<char>
    decreases ss.len(),
{
    if ss.len() == 0 {
        Seq::empty()
    } else {
        styles_text(ss.drop_last()) + style_path() + "::"@ + style_name(ss.last()) + ", "@
    }
}

/// The links `ls` as the elements of an array of pairs of a position and a
/// string literal.
pub open spec fn links_text(ls: Seq<(int, Seq<char>)>) -> Seq<char>
    decreases ls.len(),
{
    if ls.len() == 0 {
        Seq::empty()
    } else {
        links_text(ls.drop_last()) + "("@ + decimal_chars(ls.last().0 as nat) + "usize, "@
            + quoted(ls.last().1) + "), "@
    }
}

/// The items generated for the type `name` with the buttons `cs`.
pub open spec fn derive_text(name: Seq<char>, cs: Seq<ClickSpec>) -> Seq<char> {
    let n = decimal_chars(cs.len());
    "#[automatically_derived]\nimpl ClickCommand<"@ + n + "usize> for "@ + name + " {\n"@
        + "    const LABELS: [&'static str; "@ + n + "usize] = ["@ + labels_text(labels_of(cs))
        + "];\n"@ + "    const STYLES: ["@ + style_path() + "; "@ + n + "usize] = ["@
        + styles_text(styles_of(cs)) + "];\n"@
        + "    const LINKS: &'static [(usize, &'static str)] = &["@ + links_text(links_of(cs))
        + "];\n}\n"@
}

/// The arguments of the first attribute named `buttons` among `attrs`, each
/// given by its name and its arguments.
pub open spec fn buttons_args(attrs: Seq<(Seq<char>, Seq<char>)>) -> Option<Seq<char>>
    decreases attrs.len(),
{
    if attrs.len() == 0 {
        None
    } else if attrs[0].0 == "buttons"@ {
        Some(attrs[0].1)
    } else {
        buttons_args(attrs.drop_first())
    }
}

/// What deriving a click command for the type `name` with the attributes
/// `attrs` gives.
pub open spec fn derive_outcome(name: Seq<char>, attrs: Seq<(Seq<char>, Seq<char>)>) -> Result<
    Seq<char>,
    ClickFault,
> {
    match buttons_args(attrs) {
        None => Err(ClickFault::MissingAttribute),
        Some(args) => match parse_clicks_spec(args) {
            Err(e) => Err(e),
            Ok(cs) => if cs.len() > MAX_BUTTONS {
                Err(ClickFault::TooManyButtons)
            } else {
                Ok(derive_text(name, cs))
            },
        },
    }
}

/// Appends the string literal that stands for `v` to `s`.
fn push_quoted(s: &mut String, v: &str)
    ensures
        final(s)@ == old(s)@ + quoted(v@),
{
    let cs = chars_of(v);
    let len = cs.len();
    push_char(s, '"');
    let ghost start = s@;
    let mut i: usize = 0;
    while i < len
        invariant
            i <= len,
            len == cs@.len(),
            cs@ == v@,
            s@ == start + escape_str(cs@.take(i as int)),
        decreases len - i,
    {
        let c = cs[i];
        let ghost prev = s@;
        if c == '"' {
            push_char(s, '\\');
            push_char(s, '"');
        } else if c == '\\' {
            push_char(s, '\\');
            push_char(s, '\\');
        } else if c == '\n' {
            push_char(s, '\\');
            push_char(s, 'n');
        } else if c == '\r' {
            push_char(s, '\\');
            push_char(s, 'r');
        } else if c == '\t' {
            push_char(s, '\\');
            push_char(s, 't');
        } else if c == '\0' {
            push_char(s, '\\');
            push_char(s, '0');
        } else {
            push_char(s, c);
        }
        proof {
            let t = cs@.take(i + 1);
            assert(t.drop_last() =~= cs@.take(i as int));
            assert(s@ =~= prev + escaped(c));
        }
        i += 1;
    }
    assert(cs@.take(len as int) =~= v@);
    push_char(s, '"');
    assert(s@ =~= old(s)@ + quoted(v@));
}

/// The items generated for the type `name` with the buttons `b`.
fn render(name: &str, b: &Buttons, Ghost(cs): Ghost<Seq<ClickSpec>>) -> (r: String)
    requires
        b.holds(cs),
    ensures
        r@ == derive_text(name@, cs),
{
    let mut s = String::new();
    s.append("#[automatically_derived]\nimpl ClickCommand<");
    push_decimal(&mut s, b.size as u64);
    s.append("usize> for ");
    s.append(name);
    s.append(" {\n");
    s.append("    const LABELS: [&'static str; ");
    push_decimal(&mut s, b.size as u64);
    s.append("usize] = [");
    let ghost at_labels = s@;
    let labels = &b.labels.0;
    let mut i: usize = 0;
    while i < labels.len()
        invariant
            i <= labels@.len(),
            labels@.map_values(|x: String| x@) == labels_of(cs),
            s@ == at_labels + labels_text(labels_of(cs).take(i as int)),
        decreases labels.len() - i,
    {
        push_quoted(&mut s, labels[i].as_str());
        s.append(", ");
        proof {
            let t = labels_of(cs).take(i + 1);
            assert(t.drop_last() =~= labels_of(cs).take(i as int));
            assert(t.last() == labels@[i as int]@);
        }
        i += 1;
    }
    assert(labels_of(cs).take(labels@.len() as int) =~= labels_of(cs));
    s.append("];\n");
    s.append("    const STYLES: [");
    s.append("twilight_model::application::component::button::ButtonStyle");
    s.append("; ");
    push_decimal(&mut s, b.size as u64);
    s.append("usize] = [");
    let ghost at_styles = s@;
    let styles = &b.styles.0;
    let mut j: usize = 0;
    while j < styles.len()
        invariant
            j <= styles@.len(),
            styles@ == styles_of(cs),
            s@ == at_styles + styles_text(styles_of(cs).take(j as int)),
        decreases styles.len() - j,
    {
        s.append("twilight_model::application::component::button::ButtonStyle");
        s.append("::");
        s.append(styles[j].name());
        s.append(", ");
        proof {
            let t = styles_of(cs).take(j + 1);
            assert(t.drop_last() =~= styles_of(cs).take(j as int));
        }
        j += 1;
    }
    assert(styles_of(cs).take(styles@.len() as int) =~= styles_of(cs));
    s.append("];\n");
    s.append("    const LINKS: &'static [(usize, &'static str)] = &[");
    let ghost at_links = s@;
    let mut k: usize = 0;
    while k < b.size
        invariant
            k <= b.size,
            b.size == cs.len(),
            b.links@ == links_map(cs),
            s@ == at_links + links_text(links_of(cs.take(k as int))),
        decreases b.size - k,
    {
        proof {
            lemma_links_map(cs, k as int);
            let t = cs.take(k + 1);
            assert(t.drop_last() =~= cs.take(k as int));
            assert(t.last() == cs[k as int]);
        }
        match b.links.get(k) {
            Some(link) => {
                s.append("(");
                push_decimal(&mut s, k as u64);
                s.append("usize, ");
                push_quoted(&mut s, link.as_str());
                s.append("), ");
                proof {
                    let l = links_of(cs.take(k + 1));
                    assert(l.drop_last() =~= links_of(cs.take(k as int)));
                }
            },
            None => {},
        }
        k += 1;
    }
    assert(cs.take(b.size as int) =~= cs);
    s.append("];\n}\n");
    assert(s@ =~= derive_text(name@, cs));
    s
}

/// The arguments of the first attribute named `buttons` among `attrs`.
fn find_buttons(attrs: &Vec<(String, String)>) -> (r: Option<&String>)
    ensures
        match buttons_args(attrs@.map_values(|a: (String, String)| (a.0@, a.1@))) {
            Some(args) => r matches Some(x) && x@ == args,
            None => r is None,
        },
{
    let ghost all = attrs@.map_values(|a: (String, String)| (a.0@, a.1@));
    assert(all.skip(0) =~= all);
    let mut i: usize = 0;
    while i < attrs.len()
        invariant
            i <= attrs@.len(),
            all == attrs@.map_values(|a: (String, String)| (a.0@, a.1@)),
            buttons_args(all) == buttons_args(all.skip(i as int)),
        decreases attrs.len() - i,
    {
        proof {
            assert(all.skip(i as int).drop_first() =~= all.skip(i + 1));
            assert(all.skip(i as int)[0] == all[i as int]);
        }
        if str_eq(attrs[i].0.as_str(), "buttons") {
            return Some(&attrs[i].1);
        }
        i += 1;
    }
    None
}

/// The items that deriving a click command generates for the type `name`
/// whose attributes are `attrs`, each given by its name and its arguments:
/// the labels, styles and links of the buttons that the first `buttons`
/// attribute declares.
pub fn derive_click(name: &str, attrs: &Vec<(String, String)>) -> (r: Result<String, ClickError>)
    ensures
        match derive_outcome(name@, attrs@.map_values(|a: (String, String)| (a.0@, a.1@))) {
            Ok(text) => r matches Ok(t) && t@ == text,
            Err(e) => r matches Err(x) && x@ == e,
        },
{
    let args = match find_buttons(attrs) {
        Some(a) => a,
        None => {
            return Err(ClickError::MissingAttribute);
        },
    };
    let clicks = match parse_clicks(args.as_str()) {
        Ok(c) => c,
        Err(e) => {
            return Err(e);
        },
    };
    if clicks.len() > MAX_BUTTONS {
        return Err(ClickError::TooManyButtons);
    }
    let buttons = Buttons::from_clicks(&clicks);
    Ok(render(name, &buttons, Ghost(clicks_of(clicks@))))
}

} // verus!
