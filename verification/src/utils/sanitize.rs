//! Making untrusted HTML safe.
//!
//! The cleaning itself is `ammonia`'s. What is allowed is decided here.

use vstd::prelude::*;

verus! {

/// The characters of each string slice of a sequence.
pub open spec fn strs(v: Seq<&'static str>) -> Seq<Seq<char>> {
    Seq::new(v.len(), |i: int| v[i]@)
}

/// Whether `word` is none of the words.
pub open spec fn lacks(words: Seq<Seq<char>>, word: Seq<char>) -> bool {
    forall|i: int| 0 <= i < words.len() ==> #[trigger] words[i] != word
}

/// The tags that stay. Every other tag is taken out, and what it holds is
/// kept.
pub open spec fn allowed_tag_names() -> Seq<Seq<char>> {
    seq![
        "a"@, "abbr"@, "acronym"@, "address"@, "article"@, "aside"@,
        "b"@, "bdi"@, "bdo"@, "big"@, "blockquote"@, "br"@,
        "caption"@, "center"@, "cite"@, "code"@, "col"@, "colgroup"@,
        "data"@, "dd"@, "del"@, "details"@, "dfn"@, "div"@,
        "dl"@, "dt"@, "em"@, "figcaption"@, "figure"@, "footer"@,
        "h1"@, "h2"@, "h3"@, "h4"@, "h5"@, "h6"@,
        "header"@, "hr"@, "i"@, "img"@, "ins"@, "kbd"@,
        "li"@, "main"@, "mark"@, "nav"@, "ol"@, "p"@,
        "pre"@, "q"@, "rp"@, "rt"@, "ruby"@, "s"@,
        "samp"@, "section"@, "small"@, "span"@, "strike"@, "strong"@,
        "sub"@, "summary"@, "sup"@, "table"@, "tbody"@, "td"@,
        "tfoot"@, "th"@, "thead"@, "time"@, "tr"@, "tt"@,
        "u"@, "ul"@, "var"@, "wbr"@,
    ]
}

/// The attributes that stay on a link.
pub open spec fn link_attribute_names() -> Seq<Seq<char>> {
    seq!["href"@, "title"@, "target"@]
}

/// The attributes that stay on an image.
pub open spec fn image_attribute_names() -> Seq<Seq<char>> {
    seq!["src"@, "alt"@, "title"@]
}

/// The attributes that stay on every tag.
pub open spec fn generic_attribute_names() -> Seq<Seq<char>> {
    seq!["class"@, "id"@]
}

/// What every link that stays is marked with.
pub open spec fn link_rel() -> Seq<char> {
    "noopener noreferrer"@
}

/// The attributes of each tag that has attributes of its own.
pub open spec fn tag_attribute_names(v: Seq<(&'static str, Vec<&'static str>)>) -> Seq<
    (Seq<char>, Seq<Seq<char>>),
> {
    Seq::new(v.len(), |i: int| (v[i].0@, strs(v[i].1@)))
}

/// The tags that have attributes of their own, each with those that stay.
pub open spec fn own_attribute_names() -> Seq<(Seq<char>, Seq<Seq<char>>)> {
    seq![("a"@, link_attribute_names()), ("img"@, image_attribute_names())]
}

/// Whether the settings do not contradict one another: no tag is allowed,
/// or has attributes of its own, whose content is dropped (`script` and
/// `style`); and links may not set the `rel` that is forced on them.
pub open spec fn settings_agree(
    tags: Seq<Seq<char>>,
    tag_attributes: Seq<(Seq<char>, Seq<Seq<char>>)>,
    generic_attributes: Seq<Seq<char>>,
) -> bool {
    &&& lacks(tags, "script"@)
    &&& lacks(tags, "style"@)
    &&& lacks(generic_attributes, "rel"@)
    &&& forall|i: int|
        0 <= i < tag_attributes.len() ==> {
            let entry = #[trigger] tag_attributes[i];
            &&& entry.0 != "script"@
            &&& entry.0 != "style"@
            &&& (entry.0 == "a"@ ==> lacks(entry.1, "rel"@))
        }
}

/// What `ammonia` makes of `html` when it is set up with the tags that are
/// allowed, the attributes that stay on single tags and on every tag, and
/// the `rel` that links are to carry.
pub uninterp spec fn cleaned_html(
    tags: Seq<Seq<char>>,
    tag_attributes: Seq<(Seq<char>, Seq<Seq<char>>)>,
    generic_attributes: Seq<Seq<char>>,
    rel: Seq<char>,
    html: Seq<char>,
) -> Seq<char>;

/// Calls `ammonia::Builder::clean` on a builder that starts from
/// `Builder::default()` and is given the tags, the attributes of single
/// tags, the generic attributes and the `rel` of links; all else is as
/// `ammonia` has it by default. The result is a function of these and of
/// the text. The builder panics on settings that contradict one another:
/// on a tag that is allowed, or has attributes, though its content is to be
/// dropped (`script` and `style`, by default), and on a `rel` that links
/// may set while one is forced on them. `requires` leaves those out.
#[verifier::external_body]
fn clean_with(
    tags: &Vec<&'static str>,
    tag_attributes: &Vec<(&'static str, Vec<&'static str>)>,
    generic_attributes: &Vec<&'static str>,
    rel: &'static str,
    html: &str,
) -> (r: String)
    requires
        settings_agree(strs(tags@), tag_attribute_names(tag_attributes@), strs(generic_attributes@)),
    ensures
        r@ == cleaned_html(
            strs(tags@),
            tag_attribute_names(tag_attributes@),
            strs(generic_attributes@),
            rel@,
            html@,
        ),
{
    ammonia::Builder::default()
        .tags(tags.iter().copied().collect())
        .tag_attributes(tag_attributes.iter().map(|t| (t.0, t.1.iter().copied().collect())).collect())
        .generic_attributes(generic_attributes.iter().copied().collect())
        .link_rel(Some(rel))
        .clean(html)
        .to_string()
}

proof fn lemma_attributes_are_safe()
    ensures
        lacks(link_attribute_names(), "rel"@),
        lacks(generic_attribute_names(), "rel"@),
{
    reveal_strlit("href");
    reveal_strlit("title");
    reveal_strlit("target");
    reveal_strlit("class");
    reveal_strlit("id");
    reveal_strlit("rel");
    lemma_other_length("href"@, "rel"@);
    lemma_other_length("title"@, "rel"@);
    lemma_other_length("target"@, "rel"@);
    lemma_other_length("class"@, "rel"@);
    lemma_other_length("id"@, "rel"@);
}

proof fn lemma_settings_agree()
    ensures
        forall|i: int|
            0 <= i < own_attribute_names().len() ==> {
                let entry = #[trigger] own_attribute_names()[i];
                &&& entry.0 != "script"@
                &&& entry.0 != "style"@
                &&& (entry.0 == "a"@ ==> lacks(entry.1, "rel"@))
            },
{
    reveal_strlit("a");
    reveal_strlit("img");
    reveal_strlit("script");
    reveal_strlit("style");
    lemma_other_length("a"@, "script"@);
    lemma_other_length("a"@, "style"@);
    lemma_other_length("img"@, "script"@);
    lemma_other_length("img"@, "style"@);
    lemma_other_length("img"@, "a"@);
    lemma_attributes_are_safe();
}

/// Texts of different lengths differ.
proof fn lemma_other_length(a: Seq<char>, b: Seq<char>)
    requires
        a.len() != b.len(),
    ensures
        a != b,
{
}

/// Texts that differ in one place differ.
proof fn lemma_other_char(a: Seq<char>, b: Seq<char>, k: int)
    requires
        0 <= k < a.len(),
        a[k] != b[k],
    ensures
        a != b,
{
}

/// Puts one more tag among those that stay.
fn allow(tags: &mut Vec<&'static str>, tag: &'static str)
    requires
        lacks(strs(old(tags)@), "script"@),
        lacks(strs(old(tags)@), "style"@),
        tag@ != "script"@,
        tag@ != "style"@,
    ensures
        final(tags)@ == old(tags)@.push(tag),
        lacks(strs(final(tags)@), "script"@),
        lacks(strs(final(tags)@), "style"@),
{
    tags.push(tag);
    assert(strs(tags@) =~= strs(old(tags)@).push(tag@));
}

/// The tags that stay.
pub fn allowed_tags() -> (tags: Vec<&'static str>)
    ensures
        strs(tags@) == allowed_tag_names(),
        lacks(strs(tags@), "script"@),
        lacks(strs(tags@), "style"@),
{
    let mut tags: Vec<&'static str> = Vec::new();
    proof {
        reveal_strlit("script");
        reveal_strlit("style");
        reveal_strlit("a");
        lemma_other_length("a"@, "script"@);
        lemma_other_length("a"@, "style"@);
        reveal_strlit("abbr");
        lemma_other_length("abbr"@, "script"@);
        lemma_other_length("abbr"@, "style"@);
        reveal_strlit("acronym");
        lemma_other_length("acronym"@, "script"@);
        lemma_other_length("acronym"@, "style"@);
        reveal_strlit("address");
        lemma_other_length("address"@, "script"@);
        lemma_other_length("address"@, "style"@);
        reveal_strlit("article");
        lemma_other_length("article"@, "script"@);
        lemma_other_length("article"@, "style"@);
        reveal_strlit("aside");
        lemma_other_length("aside"@, "script"@);
        lemma_other_char("aside"@, "style"@, 0);
        reveal_strlit("b");
        lemma_other_length("b"@, "script"@);
        lemma_other_length("b"@, "style"@);
        reveal_strlit("bdi");
        lemma_other_length("bdi"@, "script"@);
        lemma_other_length("bdi"@, "style"@);
        reveal_strlit("bdo");
        lemma_other_length("bdo"@, "script"@);
        lemma_other_length("bdo"@, "style"@);
        reveal_strlit("big");
        lemma_other_length("big"@, "script"@);
        lemma_other_length("big"@, "style"@);
        reveal_strlit("blockquote");
        lemma_other_length("blockquote"@, "script"@);
        lemma_other_length("blockquote"@, "style"@);
        reveal_strlit("br");
        lemma_other_length("br"@, "script"@);
        lemma_other_length("br"@, "style"@);
        reveal_strlit("caption");
        lemma_other_length("caption"@, "script"@);
        lemma_other_length("caption"@, "style"@);
        reveal_strlit("center");
        lemma_other_char("center"@, "script"@, 0);
        lemma_other_length("center"@, "style"@);
        reveal_strlit("cite");
        lemma_other_length("cite"@, "script"@);
        lemma_other_length("cite"@, "style"@);
        reveal_strlit("code");
        lemma_other_length("code"@, "script"@);
        lemma_other_length("code"@, "style"@);
        reveal_strlit("col");
        lemma_other_length("col"@, "script"@);
        lemma_other_length("col"@, "style"@);
        reveal_strlit("colgroup");
        lemma_other_length("colgroup"@, "script"@);
        lemma_other_length("colgroup"@, "style"@);
        reveal_strlit("data");
        lemma_other_length("data"@, "script"@);
        lemma_other_length("data"@, "style"@);
        reveal_strlit("dd");
        lemma_other_length("dd"@, "script"@);
        lemma_other_length("dd"@, "style"@);
        reveal_strlit("del");
        lemma_other_length("del"@, "script"@);
        lemma_other_length("del"@, "style"@);
        reveal_strlit("details");
        lemma_other_length("details"@, "script"@);
        lemma_other_length("details"@, "style"@);
        reveal_strlit("dfn");
        lemma_other_length("dfn"@, "script"@);
        lemma_other_length("dfn"@, "style"@);
        reveal_strlit("div");
        lemma_other_length("div"@, "script"@);
        lemma_other_length("div"@, "style"@);
        reveal_strlit("dl");
        lemma_other_length("dl"@, "script"@);
        lemma_other_length("dl"@, "style"@);
        reveal_strlit("dt");
        lemma_other_length("dt"@, "script"@);
        lemma_other_length("dt"@, "style"@);
        reveal_strlit("em");
        lemma_other_length("em"@, "script"@);
        lemma_other_length("em"@, "style"@);
        reveal_strlit("figcaption");
        lemma_other_length("figcaption"@, "script"@);
        lemma_other_length("figcaption"@, "style"@);
        reveal_strlit("figure");
        lemma_other_char("figure"@, "script"@, 0);
        lemma_other_length("figure"@, "style"@);
        reveal_strlit("footer");
        lemma_other_char("footer"@, "script"@, 0);
        lemma_other_length("footer"@, "style"@);
        reveal_strlit("h1");
        lemma_other_length("h1"@, "script"@);
        lemma_other_length("h1"@, "style"@);
        reveal_strlit("h2");
        lemma_other_length("h2"@, "script"@);
        lemma_other_length("h2"@, "style"@);
        reveal_strlit("h3");
        lemma_other_length("h3"@, "script"@);
        lemma_other_length("h3"@, "style"@);
        reveal_strlit("h4");
        lemma_other_length("h4"@, "script"@);
        lemma_other_length("h4"@, "style"@);
        reveal_strlit("h5");
        lemma_other_length("h5"@, "script"@);
        lemma_other_length("h5"@, "style"@);
        reveal_strlit("h6");
        lemma_other_length("h6"@, "script"@);
        lemma_other_length("h6"@, "style"@);
        reveal_strlit("header");
        lemma_other_char("header"@, "script"@, 0);
        lemma_other_length("header"@, "style"@);
        reveal_strlit("hr");
        lemma_other_length("hr"@, "script"@);
        lemma_other_length("hr"@, "style"@);
        reveal_strlit("i");
        lemma_other_length("i"@, "script"@);
        lemma_other_length("i"@, "style"@);
        reveal_strlit("img");
        lemma_other_length("img"@, "script"@);
        lemma_other_length("img"@, "style"@);
        reveal_strlit("ins");
        lemma_other_length("ins"@, "script"@);
        lemma_other_length("ins"@, "style"@);
        reveal_strlit("kbd");
        lemma_other_length("kbd"@, "script"@);
        lemma_other_length("kbd"@, "style"@);
        reveal_strlit("li");
        lemma_other_length("li"@, "script"@);
        lemma_other_length("li"@, "style"@);
        reveal_strlit("main");
        lemma_other_length("main"@, "script"@);
        lemma_other_length("main"@, "style"@);
        reveal_strlit("mark");
        lemma_other_length("mark"@, "script"@);
        lemma_other_length("mark"@, "style"@);
        reveal_strlit("nav");
        lemma_other_length("nav"@, "script"@);
        lemma_other_length("nav"@, "style"@);
        reveal_strlit("ol");
        lemma_other_length("ol"@, "script"@);
        lemma_other_length("ol"@, "style"@);
        reveal_strlit("p");
        lemma_other_length("p"@, "script"@);
        lemma_other_length("p"@, "style"@);
        reveal_strlit("pre");
        lemma_other_length("pre"@, "script"@);
        lemma_other_length("pre"@, "style"@);
        reveal_strlit("q");
        lemma_other_length("q"@, "script"@);
        lemma_other_length("q"@, "style"@);
        reveal_strlit("rp");
        lemma_other_length("rp"@, "script"@);
        lemma_other_length("rp"@, "style"@);
        reveal_strlit("rt");
        lemma_other_length("rt"@, "script"@);
        lemma_other_length("rt"@, "style"@);
        reveal_strlit("ruby");
        lemma_other_length("ruby"@, "script"@);
        lemma_other_length("ruby"@, "style"@);
        reveal_strlit("s");
        lemma_other_length("s"@, "script"@);
        lemma_other_length("s"@, "style"@);
        reveal_strlit("samp");
        lemma_other_length("samp"@, "script"@);
        lemma_other_length("samp"@, "style"@);
        reveal_strlit("section");
        lemma_other_length("section"@, "script"@);
        lemma_other_length("section"@, "style"@);
        reveal_strlit("small");
        lemma_other_length("small"@, "script"@);
        lemma_other_char("small"@, "style"@, 1);
        reveal_strlit("span");
        lemma_other_length("span"@, "script"@);
        lemma_other_length("span"@, "style"@);
        reveal_strlit("strike");
        lemma_other_char("strike"@, "script"@, 1);
        lemma_other_length("strike"@, "style"@);
        reveal_strlit("strong");
        lemma_other_char("strong"@, "script"@, 1);
        lemma_other_length("strong"@, "style"@);
        reveal_strlit("sub");
        lemma_other_length("sub"@, "script"@);
        lemma_other_length("sub"@, "style"@);
        reveal_strlit("summary");
        lemma_other_length("summary"@, "script"@);
        lemma_other_length("summary"@, "style"@);
        reveal_strlit("sup");
        lemma_other_length("sup"@, "script"@);
        lemma_other_length("sup"@, "style"@);
        reveal_strlit("table");
        lemma_other_length("table"@, "script"@);
        lemma_other_char("table"@, "style"@, 0);
        reveal_strlit("tbody");
        lemma_other_length("tbody"@, "script"@);
        lemma_other_char("tbody"@, "style"@, 0);
        reveal_strlit("td");
        lemma_other_length("td"@, "script"@);
        lemma_other_length("td"@, "style"@);
        reveal_strlit("tfoot");
        lemma_other_length("tfoot"@, "script"@);
        lemma_other_char("tfoot"@, "style"@, 0);
        reveal_strlit("th");
        lemma_other_length("th"@, "script"@);
        lemma_other_length("th"@, "style"@);
        reveal_strlit("thead");
        lemma_other_length("thead"@, "script"@);
        lemma_other_char("thead"@, "style"@, 0);
        reveal_strlit("time");
        lemma_other_length("time"@, "script"@);
        lemma_other_length("time"@, "style"@);
        reveal_strlit("tr");
        lemma_other_length("tr"@, "script"@);
        lemma_other_length("tr"@, "style"@);
        reveal_strlit("tt");
        lemma_other_length("tt"@, "script"@);
        lemma_other_length("tt"@, "style"@);
        reveal_strlit("u");
        lemma_other_length("u"@, "script"@);
        lemma_other_length("u"@, "style"@);
        reveal_strlit("ul");
        lemma_other_length("ul"@, "script"@);
        lemma_other_length("ul"@, "style"@);
        reveal_strlit("var");
        lemma_other_length("var"@, "script"@);
        lemma_other_length("var"@, "style"@);
        reveal_strlit("wbr");
        lemma_other_length("wbr"@, "script"@);
        lemma_other_length("wbr"@, "style"@);
    }
    allow(&mut tags, "a");
    allow(&mut tags, "abbr");
    allow(&mut tags, "acronym");
    allow(&mut tags, "address");
    allow(&mut tags, "article");
    allow(&mut tags, "aside");
    allow(&mut tags, "b");
    allow(&mut tags, "bdi");
    allow(&mut tags, "bdo");
    allow(&mut tags, "big");
    allow(&mut tags, "blockquote");
    allow(&mut tags, "br");
    allow(&mut tags, "caption");
    allow(&mut tags, "center");
    allow(&mut tags, "cite");
    allow(&mut tags, "code");
    allow(&mut tags, "col");
    allow(&mut tags, "colgroup");
    allow(&mut tags, "data");
    allow(&mut tags, "dd");
    allow(&mut tags, "del");
    allow(&mut tags, "details");
    allow(&mut tags, "dfn");
    allow(&mut tags, "div");
    allow(&mut tags, "dl");
    allow(&mut tags, "dt");
    allow(&mut tags, "em");
    allow(&mut tags, "figcaption");
    allow(&mut tags, "figure");
    allow(&mut tags, "footer");
    allow(&mut tags, "h1");
    allow(&mut tags, "h2");
    allow(&mut tags, "h3");
    allow(&mut tags, "h4");
    allow(&mut tags, "h5");
    allow(&mut tags, "h6");
    allow(&mut tags, "header");
    allow(&mut tags, "hr");
    allow(&mut tags, "i");
    allow(&mut tags, "img");
    allow(&mut tags, "ins");
    allow(&mut tags, "kbd");
    allow(&mut tags, "li");
    allow(&mut tags, "main");
    allow(&mut tags, "mark");
    allow(&mut tags, "nav");
    allow(&mut tags, "ol");
    allow(&mut tags, "p");
    allow(&mut tags, "pre");
    allow(&mut tags, "q");
    allow(&mut tags, "rp");
    allow(&mut tags, "rt");
    allow(&mut tags, "ruby");
    allow(&mut tags, "s");
    allow(&mut tags, "samp");
    allow(&mut tags, "section");
    allow(&mut tags, "small");
    allow(&mut tags, "span");
    allow(&mut tags, "strike");
    allow(&mut tags, "strong");
    allow(&mut tags, "sub");
    allow(&mut tags, "summary");
    allow(&mut tags, "sup");
    allow(&mut tags, "table");
    allow(&mut tags, "tbody");
    allow(&mut tags, "td");
    allow(&mut tags, "tfoot");
    allow(&mut tags, "th");
    allow(&mut tags, "thead");
    allow(&mut tags, "time");
    allow(&mut tags, "tr");
    allow(&mut tags, "tt");
    allow(&mut tags, "u");
    allow(&mut tags, "ul");
    allow(&mut tags, "var");
    allow(&mut tags, "wbr");
    assert(strs(tags@) =~= allowed_tag_names());
    tags
}

/// What `ammonia` makes of `html` under this library's settings.
pub open spec fn sanitized(html: Seq<char>) -> Seq<char> {
    cleaned_html(
        allowed_tag_names(),
        own_attribute_names(),
        generic_attribute_names(),
        link_rel(),
        html,
    )
}

/// `html` made safe: only the allowed tags and attributes stay, and every
/// link that stays carries `rel="noopener noreferrer"`.
pub fn sanitize_html(html: &str) -> (r: String)
    ensures
        r@ == sanitized(html@),
{
    let tags = allowed_tags();
    let mut link_attributes: Vec<&'static str> = Vec::new();
    link_attributes.push("href");
    link_attributes.push("title");
    link_attributes.push("target");
    let mut image_attributes: Vec<&'static str> = Vec::new();
    image_attributes.push("src");
    image_attributes.push("alt");
    image_attributes.push("title");
    let mut tag_attributes: Vec<(&'static str, Vec<&'static str>)> = Vec::new();
    tag_attributes.push(("a", link_attributes));
    tag_attributes.push(("img", image_attributes));
    let mut generic_attributes: Vec<&'static str> = Vec::new();
    generic_attributes.push("class");
    generic_attributes.push("id");
    proof {
        lemma_attributes_are_safe();
        lemma_settings_agree();
        let names = tag_attribute_names(tag_attributes@);
        assert(names[0].1 =~= link_attribute_names());
        assert(names[1].1 =~= image_attribute_names());
        assert(names =~= own_attribute_names());
        assert(strs(generic_attributes@) =~= generic_attribute_names());
    }
    clean_with(&tags, &tag_attributes, &generic_attributes, "noopener noreferrer", html)
}

} // verus!
