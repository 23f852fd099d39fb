use crate::config::Config;
use crate::text::{find_char, lemma_position, position};
use vstd::prelude::*;
use vstd::string::*;

verus! {

/// An image name with its tag, where it has one.
#[derive(Debug, Clone, PartialEq, Eq)]
pub struct ImageReference {
    pub name: String,
    pub tag: Option<String>,
}

/// What an `ImageReference` holds, as mathematical text.
pub struct ReferenceView {
    pub name: Seq<char>,
    pub tag: Option<Seq<char>>,
}

impl View for ImageReference {
    type V = ReferenceView;

    open spec fn view(&self) -> ReferenceView {
        ReferenceView { name: self.name@, tag: self.tag.deep_view() }
    }
}

/// The name of the image that is used where none is configured.
pub open spec fn baseline_image() -> Seq<char> {
    "ubuntu"@
}

/// The name part of a configured image: what stands before its first colon.
pub open spec fn image_name(image: Option<Seq<char>>) -> Seq<char> {
    match image {
        None => baseline_image(),
        Some(text) => text.take(position(text, ':') as int),
    }
}

/// The tag part of a configured image: what follows its first colon.
pub open spec fn image_tag(image: Option<Seq<char>>) -> Option<Seq<char>> {
    match image {
        None => None,
        Some(text) => if position(text, ':') < text.len() {
            Some(text.skip(position(text, ':') as int + 1))
        } else {
            None
        },
    }
}

/// The reference that a configured image resolves to.
pub open spec fn resolved(image: Option<Seq<char>>) -> ReferenceView {
    ReferenceView { name: image_name(image), tag: image_tag(image) }
}

/// A name and a tag written as one reference: `name`, or `name:tag`.
pub open spec fn rendered(name: Seq<char>, tag: Option<Seq<char>>) -> Seq<char> {
    match tag {
        None => name,
        Some(t) => name + seq![':'] + t,
    }
}

/// A configured image is split at its first colon and at no other place,
/// and the two parts written as a reference give the configured text back.
pub proof fn lemma_split_at_first_colon(image: Seq<char>)
    requires
        image.contains(':'),
    ensures
        position(image, ':') < image.len(),
        image[position(image, ':') as int] == ':',
        !image_name(Some(image)).contains(':'),
        image_name(Some(image)) == image.subrange(0, position(image, ':') as int),
        image_tag(Some(image)) == Some(
            image.subrange(position(image, ':') as int + 1, image.len() as int),
        ),
        rendered(image_name(Some(image)), image_tag(Some(image))) == image,
{
    lemma_position(image, ':');
    let k = position(image, ':') as int;
    let at = choose|i: int| 0 <= i < image.len() && image[i] == ':';
    assert(k <= at);
    let name = image_name(Some(image));
    assert forall|i: int| 0 <= i < name.len() implies name[i] != ':' by {
        assert(name[i] == image[i]);
    }
    assert(name + seq![':'] + image.skip(k + 1) =~= image);
}

/// Whatever is configured, the resolved reference written out is the
/// configured text.
pub proof fn lemma_rendering_restores(image: Seq<char>)
    ensures
        rendered(image_name(Some(image)), image_tag(Some(image))) == image,
{
    lemma_position(image, ':');
    let k = position(image, ':') as int;
    if k < image.len() {
        assert(image.take(k) + seq![':'] + image.skip(k + 1) =~= image);
    } else {
        assert(image.take(k) =~= image);
    }
}

/// Without a configured image the reference is the baseline image with no
/// tag, and it is written as that name alone.
pub proof fn lemma_absent_image()
    ensures
        resolved(None) == (ReferenceView { name: baseline_image(), tag: None }),
        rendered(resolved(None).name, resolved(None).tag) == baseline_image(),
{
}

/// The resolved name is empty exactly where the configured text is empty or
/// starts with a colon.
pub proof fn lemma_name_empty(image: Option<Seq<char>>)
    ensures
        image_name(image).len() == 0 <==> image is Some && (image->0.len() == 0 || image->0[0]
            == ':'),
{
    reveal_strlit("ubuntu");
    if let Some(text) = image {
        lemma_position(text, ':');
    }
}

/// The image name that `config` asks for.
pub fn extract_image(config: &Config) -> (name: &str)
    ensures
        name@ == image_name(config@.image),
{
    match &config.image {
        None => "ubuntu",
        Some(image_tag) => {
            let at = find_char(image_tag.as_str(), ':');
            proof {
                lemma_position(image_tag@, ':');
            }
            image_tag.as_str().substring_char(0, at)
        },
    }
}

/// The image tag that `config` asks for, where it names one.
pub fn extract_tag(config: &Config) -> (tag: Option<&str>)
    ensures
        tag.deep_view() == image_tag(config@.image),
{
    match &config.image {
        None => None,
        Some(image_tag) => {
            let text = image_tag.as_str();
            let total = text.unicode_len();
            let at = find_char(text, ':');
            proof {
                lemma_position(image_tag@, ':');
            }
            if at < total {
                Some(text.substring_char(at + 1, total))
            } else {
                None
            }
        },
    }
}

/// Writes a name and a tag as one reference.
pub fn get_reference(image: &str, tag_option: Option<&str>) -> (reference: String)
    ensures
        reference@ == rendered(image@, tag_option.deep_view()),
{
    let mut reference = image.to_owned();
    if let Some(tag) = tag_option {
        proof {
            reveal_strlit(":");
        }
        reference.append(":");
        reference.append(tag);
        assert(":"@ =~= seq![':']);
    }
    reference
}

impl ImageReference {
    /// Resolves the image that `config` asks for.
    pub fn resolve(config: &Config) -> (reference: ImageReference)
        ensures
            reference@ == resolved(config@.image),
    {
        let name = extract_image(config).to_owned();
        let tag = match extract_tag(config) {
            None => None,
            Some(text) => Some(text.to_owned()),
        };
        ImageReference { name, tag }
    }

    /// Writes the reference as the runtime takes it.
    pub fn render(&self) -> (reference: String)
        ensures
            reference@ == rendered(self@.name, self@.tag),
    {
        match &self.tag {
            None => get_reference(self.name.as_str(), None),
            Some(tag) => get_reference(self.name.as_str(), Some(tag.as_str())),
        }
    }
}

/// Whether an image whose search gave `matches` results has to be pulled.
pub open spec fn pull_needed(matches: nat) -> bool {
    matches == 0
}

/// Decides from the number of search results whether to pull the image.
pub fn should_pull(matches: usize) -> (pull: bool)
    ensures
        pull == pull_needed(matches as nat),
{
    matches == 0
}

} // verus!
