use vstd::prelude::*;
use fluent::bundle::FluentBundle;
use fluent::{FluentArgs, FluentResource};
use intl_memoizer::concurrent::IntlLangMemoizer;
use unic_langid::LanguageIdentifier;

verus! {

/// `fluent::bundle::FluentBundle`: the messages of one language. Nothing is known of what
/// is inside but what the functions below say of it.
#[verifier::external_type_specification]
#[verifier::external_body]
#[verifier::reject_recursive_types(R)]
#[verifier::reject_recursive_types(M)]
pub struct ExFluentBundle<R, M>(FluentBundle<R, M>);

/// `fluent::FluentResource`: a source text with the messages and terms that were read from it.
#[verifier::external_type_specification]
#[verifier::external_body]
pub struct ExFluentResource(FluentResource);

/// `intl_memoizer::concurrent::IntlLangMemoizer`: what a bundle keeps of its language's rules.
#[verifier::external_type_specification]
#[verifier::external_body]
pub struct ExIntlLangMemoizer(IntlLangMemoizer);

/// `unic_langid::LanguageIdentifier`: a language, as its tag names it.
#[verifier::external_type_specification]
#[verifier::external_body]
pub struct ExLanguageIdentifier(LanguageIdentifier);

/// Whether a text is the tag of a language.
pub uninterp spec fn langid_valid(lang: Seq<char>) -> bool;

/// The names under which the bundle holds an entry of any sort.
pub uninterp spec fn entry_ids(bundle: FluentBundle<FluentResource, IntlLangMemoizer>) -> Set<
    Seq<char>,
>;

/// The names of the messages and terms of a resource.
pub uninterp spec fn resource_ids(resource: FluentResource) -> Set<Seq<char>>;

/// The names for which the first entry of that name in a resource is a message with a text
/// of its own.
pub uninterp spec fn resource_patterns(resource: FluentResource) -> Set<Seq<char>>;

/// The resource that a source text holds.
pub uninterp spec fn resource_of(source: Seq<char>) -> FluentResource;

/// The names of the messages that the bundle holds with a text of their own.
pub uninterp spec fn patterns(bundle: FluentBundle<FluentResource, IntlLangMemoizer>) -> Set<
    Seq<char>,
>;

/// Whether the bundle holds a message of this name that has a text of its own.
pub open spec fn has_pattern(
    bundle: FluentBundle<FluentResource, IntlLangMemoizer>,
    id: Seq<char>,
) -> bool {
    patterns(bundle).contains(id)
}

/// The text that the bundle makes of the message of this name with these arguments.
pub uninterp spec fn formatted(
    bundle: FluentBundle<FluentResource, IntlLangMemoizer>,
    id: Seq<char>,
    args: Option<Seq<(Seq<char>, Seq<char>)>>,
) -> Seq<char>;

/// The arguments of a message as sequences of characters: each a name and a text.
pub open spec fn args_view(args: Option<&Vec<(String, String)>>) -> Option<
    Seq<(Seq<char>, Seq<char>)>,
> {
    match args {
        Some(a) => Some(a@.map_values(|p: (String, String)| (p.0@, p.1@))),
        None => None,
    }
}

/// `FluentBundle::get_message` and `FluentMessage::value`: whether the bundle holds a
/// message of this name, and that message has a text of its own.
#[verifier::external_body]
fn bundle_has_pattern(bundle: &FluentBundle<FluentResource, IntlLangMemoizer>, id: &str) -> (b:
    bool)
    ensures
        b == patterns(*bundle).contains(id@),
{
    bundle.get_message(id).and_then(|msg| msg.value()).is_some()
}

/// `FluentBundle::format_pattern` on the text of the message of this name, which the bundle
/// must hold: the text that the bundle makes of it with these arguments. Errors that the
/// formatting reports are not kept.
#[verifier::external_body]
fn bundle_format(
    bundle: &FluentBundle<FluentResource, IntlLangMemoizer>,
    id: &str,
    args: Option<&Vec<(String, String)>>,
) -> (r: String)
    requires
        patterns(*bundle).contains(id@),
    ensures
        r@ == formatted(*bundle, id@, args_view(args)),
{
    let mut errors = vec![];
    let pattern = bundle.get_message(id).unwrap().value().unwrap();
    let fargs: Option<FluentArgs> = args.map(
        |a| a.iter().map(|p| (p.0.as_str(), p.1.as_str())).collect(),
    );
    bundle.format_pattern(pattern, fargs.as_ref(), &mut errors).into_owned()
}

/// `str::parse` to a `LanguageIdentifier`: the language that a tag names, if it is one.
#[verifier::external_body]
fn parse_langid(lang: &str) -> (r: Option<LanguageIdentifier>)
    ensures
        r.is_some() == langid_valid(lang@),
{
    lang.parse().ok()
}

/// `FluentBundle::new_concurrent`: a bundle for one language that holds nothing yet.
#[verifier::external_body]
fn empty_bundle(langid: LanguageIdentifier) -> (b: FluentBundle<FluentResource, IntlLangMemoizer>)
    ensures
        entry_ids(b) == Set::<Seq<char>>::empty(),
        patterns(b) == Set::<Seq<char>>::empty(),
{
    FluentBundle::new_concurrent(vec![langid])
}

/// `FluentBundle::add_resource`: every message and term of the resource enters the bundle
/// under its name, unless the bundle holds an entry of that name already, which then stays.
/// Whether a name was taken is not reported.
#[verifier::external_body]
fn add_resource(bundle: &mut FluentBundle<FluentResource, IntlLangMemoizer>, resource: FluentResource)
    ensures
        entry_ids(*final(bundle)) == entry_ids(*old(bundle)).union(resource_ids(resource)),
        patterns(*final(bundle)) == patterns(*old(bundle)).union(
            resource_patterns(resource).difference(entry_ids(*old(bundle))),
        ),
{
    let _ = bundle.add_resource(resource);
}

/// `FluentResource::try_new`: the resource that a source text holds. Where parts of the text
/// cannot be read, the resource holds the rest.
#[verifier::external_body]
fn parse_resource(source: String) -> (r: FluentResource)
    ensures
        r == resource_of(source@),
{
    match FluentResource::try_new(source) {
        Ok(r) => r,
        Err((r, _)) => r,
    }
}

/// Whether a directory entry is a file of texts: a file whose name ends in `.ftl`.
pub fn is_text_file(is_file: bool, extension: Option<&str>) -> (b: bool)
    ensures
        b == (is_file && extension.is_some() && extension.unwrap()@ == "ftl"@),
{
    match extension {
        Some(e) => is_file && e.to_string() == "ftl".to_string(),
        None => false,
    }
}

/// The resources that the source texts hold, in their order.
pub fn parse_resources(sources: Vec<String>) -> (resources: Vec<FluentResource>)
    ensures
        resources@.len() == sources@.len(),
        forall|i: int| 0 <= i < sources@.len() ==> resources@[i] == resource_of(sources@[i]@),
{
    let mut rest = sources;
    let mut resources: Vec<FluentResource> = Vec::new();
    while rest.len() > 0
        invariant
            resources@.len() + rest@.len() == sources@.len(),
            rest@ == sources@.subrange(resources@.len() as int, sources@.len() as int),
            forall|i: int| 0 <= i < resources@.len() ==> resources@[i] == resource_of(sources@[i]@),
        decreases rest@.len(),
    {
        let source = rest.remove(0);
        resources.push(parse_resource(source));
        assert(rest@ =~= sources@.subrange(resources@.len() as int, sources@.len() as int));
    }
    resources
}

/// The names under which a bundle holds an entry after these resources were added to an
/// empty one, in this order.
pub open spec fn ids_after(resources: Seq<FluentResource>) -> Set<Seq<char>>
    decreases resources.len(),
{
    if resources.len() == 0 {
        Set::empty()
    } else {
        ids_after(resources.drop_last()).union(resource_ids(resources.last()))
    }
}

/// The names of the messages with a text that a bundle holds after these resources were
/// added to an empty one, in this order: of two entries with one name the earlier one counts.
pub open spec fn patterns_after(resources: Seq<FluentResource>) -> Set<Seq<char>>
    decreases resources.len(),
{
    if resources.len() == 0 {
        Set::empty()
    } else {
        patterns_after(resources.drop_last()).union(
            resource_patterns(resources.last()).difference(ids_after(resources.drop_last())),
        )
    }
}

/// A bundle for the language that `lang` names, which must be the tag of a language, filled
/// with the resources in their order.
pub fn new_bundle(lang: &str, resource: Vec<FluentResource>) -> (bundle: FluentBundle<
    FluentResource,
    IntlLangMemoizer,
>)
    requires
        langid_valid(lang@),
    ensures
        entry_ids(bundle) == ids_after(resource@),
        patterns(bundle) == patterns_after(resource@),
{
    match parse_langid(lang) {
        Some(langid) => fill_bundle(langid, resource),
        None => vstd::pervasive::unreached(),
    }
}

/// A bundle for the language that `lang` names, filled with the resources in their order;
/// none where `lang` is not the tag of a language.
pub fn try_new_bundle(lang: &str, resource: Vec<FluentResource>) -> (r: Option<
    FluentBundle<FluentResource, IntlLangMemoizer>,
>)
    ensures
        r.is_some() == langid_valid(lang@),
        r.is_some() ==> entry_ids(r.unwrap()) == ids_after(resource@) && patterns(r.unwrap())
            == patterns_after(resource@),
{
    match parse_langid(lang) {
        Some(_) => Some(new_bundle(lang, resource)),
        None => None,
    }
}

/// A bundle for a language, filled with the resources in their order.
fn fill_bundle(langid: LanguageIdentifier, resource: Vec<FluentResource>) -> (bundle: FluentBundle<
    FluentResource,
    IntlLangMemoizer,
>)
    ensures
        entry_ids(bundle) == ids_after(resource@),
        patterns(bundle) == patterns_after(resource@),
{
    let mut bundle = empty_bundle(langid);
    let mut rest = resource;
    let ghost all = resource@;
    let ghost mut done: int = 0;
    while rest.len() > 0
        invariant
            0 <= done <= all.len(),
            rest@ == all.subrange(done, all.len() as int),
            entry_ids(bundle) == ids_after(all.take(done)),
            patterns(bundle) == patterns_after(all.take(done)),
        decreases rest@.len(),
    {
        let res = rest.remove(0);
        add_resource(&mut bundle, res);
        proof {
            assert(res == all[done]);
            assert(all.take(done + 1).drop_last() =~= all.take(done));
            assert(all.take(done + 1).last() == all[done]);
            done = done + 1;
            assert(rest@ =~= all.subrange(done, all.len() as int));
        }
    }
    proof {
        assert(all.take(done) =~= all);
    }
    bundle
}

/// The texts of one sort in the first language and in the second, which stands in where the
/// first has no text.
pub struct Bundle {
    pub first: FluentBundle<FluentResource, IntlLangMemoizer>,
    pub second: FluentBundle<FluentResource, IntlLangMemoizer>,
}

impl Bundle {
    /// The text that the pair gives for a message: the first bundle's where it holds the
    /// message with a text, else the second's, else none.
    pub open spec fn text_of(
        &self,
        id: Seq<char>,
        args: Option<Seq<(Seq<char>, Seq<char>)>>,
    ) -> Option<Seq<char>> {
        if has_pattern(self.first, id) {
            Some(formatted(self.first, id, args))
        } else if has_pattern(self.second, id) {
            Some(formatted(self.second, id, args))
        } else {
            None
        }
    }

    /// The text that a message has with these arguments, or the message's own name where
    /// neither bundle has a text for it.
    pub open spec fn text_or_id(
        &self,
        id: Seq<char>,
        args: Option<Seq<(Seq<char>, Seq<char>)>>,
    ) -> Seq<char> {
        match self.text_of(id, args) {
            Some(s) => s,
            None => id,
        }
    }

    /// The text for a message with these arguments, if one of the two bundles has it.
    pub fn format(&self, id: &str, args: Option<&Vec<(String, String)>>) -> (r: Option<String>)
        ensures
            r.is_some() == self.text_of(id@, args_view(args)).is_some(),
            r.is_some() ==> r.unwrap()@ == self.text_of(id@, args_view(args)).unwrap(),
    {
        if bundle_has_pattern(&self.first, id) {
            return Some(bundle_format(&self.first, id, args));
        }
        if bundle_has_pattern(&self.second, id) {
            return Some(bundle_format(&self.second, id, args));
        }
        None
    }

    /// The text for a message with these arguments, or the message's own name.
    pub fn format_or_id(&self, id: &str, args: Option<&Vec<(String, String)>>) -> (r: String)
        ensures
            r@ == self.text_or_id(id@, args_view(args)),
    {
        match self.format(id, args) {
            Some(s) => s,
            None => id.to_string(),
        }
    }
}

/// All texts of the game, by sort.
pub struct TextBundles {
    pub obj: Bundle,
    pub log: Bundle,
    pub ui: Bundle,
    pub talk: Bundle,
    pub misc: Bundle,
}

/// The name of an object, or its identifier where it has no name.
pub fn obj_txt(bundles: &TextBundles, id: &str) -> (r: String)
    ensures
        r@ == bundles.obj.text_or_id(id@, None),
{
    bundles.obj.format_or_id(id, None)
}

/// The name of an object, if it has one.
pub fn obj_txt_checked(bundles: &TextBundles, id: &str) -> (r: Option<String>)
    ensures
        r.is_some() == bundles.obj.text_of(id@, None).is_some(),
        r.is_some() ==> r.unwrap()@ == bundles.obj.text_of(id@, None).unwrap(),
{
    bundles.obj.format(id, None)
}

/// A line of the log, or its identifier where it has no text.
pub fn log_txt(bundles: &TextBundles, id: &str) -> (r: String)
    ensures
        r@ == bundles.log.text_or_id(id@, None),
{
    log_txt_with_args(bundles, id, None)
}

/// A line of the log with its arguments filled in, or its identifier where it has no text.
pub fn log_txt_with_args(
    bundles: &TextBundles,
    id: &str,
    args: Option<&Vec<(String, String)>>,
) -> (r: String)
    ensures
        r@ == bundles.log.text_or_id(id@, args_view(args)),
{
    bundles.log.format_or_id(id, args)
}

/// A text of the user interface, or its identifier where it has no text.
pub fn ui_txt(bundles: &TextBundles, id: &str) -> (r: String)
    ensures
        r@ == bundles.ui.text_or_id(id@, None),
{
    ui_txt_with_args(bundles, id, None)
}

/// A text of the user interface with its arguments filled in, or its identifier where it
/// has no text.
pub fn ui_txt_with_args(
    bundles: &TextBundles,
    id: &str,
    args: Option<&Vec<(String, String)>>,
) -> (r: String)
    ensures
        r@ == bundles.ui.text_or_id(id@, args_view(args)),
{
    bundles.ui.format_or_id(id, args)
}

/// A text of the user interface, if there is one.
pub fn ui_txt_checked(bundles: &TextBundles, id: &str) -> (r: Option<String>)
    ensures
        r.is_some() == bundles.ui.text_of(id@, None).is_some(),
        r.is_some() ==> r.unwrap()@ == bundles.ui.text_of(id@, None).unwrap(),
{
    bundles.ui.format(id, None)
}

/// A line of talk, or its identifier where it has no text.
pub fn talk_txt(bundles: &TextBundles, id: &str) -> (r: String)
    ensures
        r@ == bundles.talk.text_or_id(id@, None),
{
    talk_txt_with_args(bundles, id, None)
}

/// A line of talk with its arguments filled in, or its identifier where it has no text.
pub fn talk_txt_with_args(
    bundles: &TextBundles,
    id: &str,
    args: Option<&Vec<(String, String)>>,
) -> (r: String)
    ensures
        r@ == bundles.talk.text_or_id(id@, args_view(args)),
{
    bundles.talk.format_or_id(id, args)
}

/// A line of talk with its arguments filled in, if there is one.
pub fn talk_txt_checked(
    bundles: &TextBundles,
    id: &str,
    args: Option<&Vec<(String, String)>>,
) -> (r: Option<String>)
    ensures
        r.is_some() == bundles.talk.text_of(id@, args_view(args)).is_some(),
        r.is_some() ==> r.unwrap()@ == bundles.talk.text_of(id@, args_view(args)).unwrap(),
{
    bundles.talk.format(id, args)
}

/// Any other text, or its identifier where it has no text.
pub fn misc_txt(bundles: &TextBundles, id: &str) -> (r: String)
    ensures
        r@ == bundles.misc.text_or_id(id@, None),
{
    misc_txt_with_args(bundles, id, None)
}

/// Any other text with its arguments filled in, or its identifier where it has no text.
pub fn misc_txt_with_args(
    bundles: &TextBundles,
    id: &str,
    args: Option<&Vec<(String, String)>>,
) -> (r: String)
    ensures
        r@ == bundles.misc.text_or_id(id@, args_view(args)),
{
    bundles.misc.format_or_id(id, args)
}

/// For data that is printed in the game as it is.
pub trait ToText {
    fn to_text(&self) -> String;
}

/// For data that has the name of a text, which is then shown in the player's language.
pub trait ToTextId {
    fn to_textid(&self) -> &'static str;
}

/// The text that stands for `a`: what `misc_txt` gives for the name that `a` answers with.
pub fn to_txt<T: ToTextId>(bundles: &TextBundles, a: &T) -> (r: String)
    ensures
        exists|id: Seq<char>| r@ == #[trigger] bundles.misc.text_or_id(id, None),
{
    let id = a.to_textid();
    let r = misc_txt(bundles, id);
    assert(r@ == bundles.misc.text_or_id(id@, None));
    r
}

} // verus!
