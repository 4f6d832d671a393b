//! What is known of an image: the metadata of its page, the example that
//! pairs the metadata with the image, and the named features an example is
//! written out as.

use vstd::prelude::*;
use vstd::string::StrSliceExecFns;
use vstd::utf8::encode_utf8;

verus! {

/// What a photo page says of its image.
#[derive(Debug, PartialEq, Eq)]
pub struct ImageMetadata {
    pub comment_count: u32,
    pub fave_count: u32,
    pub view_count: u32,
    pub license: String,
    pub tags: String,
    pub title: String,
    pub description: String,
    pub owner: String,
    pub img_src: String,
}

/// The mathematical value of an `ImageMetadata`.
pub ghost struct ImageMetadataView {
    pub comment_count: nat,
    pub fave_count: nat,
    pub view_count: nat,
    pub license: Seq<char>,
    pub tags: Seq<char>,
    pub title: Seq<char>,
    pub description: Seq<char>,
    pub owner: Seq<char>,
    pub img_src: Seq<char>,
}

impl View for ImageMetadata {
    type V = ImageMetadataView;

    open spec fn view(&self) -> ImageMetadataView {
        ImageMetadataView {
            comment_count: self.comment_count as nat,
            fave_count: self.fave_count as nat,
            view_count: self.view_count as nat,
            license: self.license@,
            tags: self.tags@,
            title: self.title@,
            description: self.description@,
            owner: self.owner@,
            img_src: self.img_src@,
        }
    }
}

impl Clone for ImageMetadata {
    fn clone(&self) -> (copy: Self)
        ensures
            copy == *self,
    {
        ImageMetadata {
            comment_count: self.comment_count,
            fave_count: self.fave_count,
            view_count: self.view_count,
            license: self.license.clone(),
            tags: self.tags.clone(),
            title: self.title.clone(),
            description: self.description.clone(),
            owner: self.owner.clone(),
            img_src: self.img_src.clone(),
        }
    }
}

/// The width and height of an image, in pixels.
#[derive(Clone, Copy, Debug, PartialEq, Eq, Structural)]
pub struct Dimensions {
    pub width: u32,
    pub height: u32,
}

/// An image with the metadata of its page.
#[derive(Debug, PartialEq, Eq)]
pub struct ImageExample {
    pub metadata: ImageMetadata,
    pub file: Vec<u8>,
    pub width: u32,
    pub height: u32,
}

/// The mathematical value of an `ImageExample`.
pub ghost struct ImageExampleView {
    pub metadata: ImageMetadataView,
    pub file: Seq<u8>,
    pub width: nat,
    pub height: nat,
}

impl View for ImageExample {
    type V = ImageExampleView;

    open spec fn view(&self) -> ImageExampleView {
        ImageExampleView {
            metadata: self.metadata@,
            file: self.file@,
            width: self.width as nat,
            height: self.height as nat,
        }
    }
}

/// The value of one feature of an example.
#[derive(Debug, PartialEq, Eq)]
pub enum Feature {
    /// A list of 64-bit signed integers.
    Int64List(Vec<i64>),
    /// A list of byte strings.
    BytesList(Vec<Vec<u8>>),
}

/// The mathematical value of a `Feature`.
pub ghost enum FeatureView {
    Int64List(Seq<int>),
    BytesList(Seq<Seq<u8>>),
}

impl View for Feature {
    type V = FeatureView;

    open spec fn view(&self) -> FeatureView {
        match self {
            Feature::Int64List(values) => FeatureView::Int64List(
                values@.map_values(|value: i64| value as int),
            ),
            Feature::BytesList(values) => FeatureView::BytesList(
                values@.map_values(|value: Vec<u8>| value@),
            ),
        }
    }
}

/// A feature under its name.
#[derive(Debug, PartialEq, Eq)]
pub struct NamedFeature {
    pub name: String,
    pub value: Feature,
}

/// The names and values of a list of features.
pub open spec fn named_values(features: Seq<NamedFeature>) -> Seq<(Seq<char>, FeatureView)> {
    features.map_values(|feature: NamedFeature| (feature.name@, feature.value@))
}

/// The feature that holds one number.
pub open spec fn int_value(number: nat) -> FeatureView {
    FeatureView::Int64List(seq![number as int])
}

/// The feature that holds one text, as the bytes of its UTF-8 encoding.
pub open spec fn text_value(text: Seq<char>) -> FeatureView {
    FeatureView::BytesList(seq![encode_utf8(text)])
}

/// The feature that holds one byte string.
pub open spec fn bytes_value(bytes: Seq<u8>) -> FeatureView {
    FeatureView::BytesList(seq![bytes])
}

/// The features that an example is written out as: five numbers, six texts
/// and the image itself.
pub open spec fn example_features(example: ImageExampleView) -> Seq<(Seq<char>, FeatureView)> {
    seq![
        ("comment_count"@, int_value(example.metadata.comment_count)),
        ("fave_count"@, int_value(example.metadata.fave_count)),
        ("view_count"@, int_value(example.metadata.view_count)),
        ("height"@, int_value(example.height)),
        ("width"@, int_value(example.width)),
        ("license"@, text_value(example.metadata.license)),
        ("tags"@, text_value(example.metadata.tags)),
        ("title"@, text_value(example.metadata.title)),
        ("description"@, text_value(example.metadata.description)),
        ("owner"@, text_value(example.metadata.owner)),
        ("img_src"@, text_value(example.metadata.img_src)),
        ("image"@, bytes_value(example.file)),
    ]
}

/// No two features of an example share a name: the list is a mapping from
/// names to values.
pub proof fn feature_names_differ(example: ImageExampleView)
    ensures
        example_features(example).len() == 12,
        forall|i: int, j: int|
            0 <= i < j < 12 ==> example_features(example)[i].0 != example_features(example)[j].0,
{
    reveal_strlit("comment_count");
    reveal_strlit("fave_count");
    reveal_strlit("view_count");
    reveal_strlit("height");
    reveal_strlit("width");
    reveal_strlit("license");
    reveal_strlit("tags");
    reveal_strlit("title");
    reveal_strlit("description");
    reveal_strlit("owner");
    reveal_strlit("img_src");
    reveal_strlit("image");
    let features = example_features(example);
    // names of one length differ in a character
    assert(features[1].0[0] != features[2].0[0]);
    assert(features[5].0[0] != features[10].0[0]);
    assert(features[4].0[0] != features[7].0[0]);
    assert(features[4].0[0] != features[9].0[0]);
    assert(features[4].0[0] != features[11].0[0]);
    assert(features[7].0[0] != features[9].0[0]);
    assert(features[7].0[0] != features[11].0[0]);
    assert(features[9].0[1] != features[11].0[1]);
    assert forall|i: int, j: int| 0 <= i < j < 12 implies features[i].0 != features[j].0 by {
        // any other two names differ in length
        if features[i].0.len() == features[j].0.len() {
            assert(features[i].0.len() == 10 || features[i].0.len() == 7 || features[i].0.len()
                == 5);
        }
    }
}

/// Makes the feature that holds one number.
pub fn int_feature(x: u32) -> (feature: Feature)
    ensures
        feature@ == int_value(x as nat),
{
    let values: Vec<i64> = vec![x as i64];
    assert(values@.map_values(|value: i64| value as int) =~= seq![x as int]);
    Feature::Int64List(values)
}

/// Makes the feature that holds one byte string.
pub fn byte_feature(x: Vec<u8>) -> (feature: Feature)
    ensures
        feature@ == bytes_value(x@),
{
    let values: Vec<Vec<u8>> = vec![x];
    assert(values@.map_values(|value: Vec<u8>| value@) =~= seq![x@]);
    Feature::BytesList(values)
}

/// Makes the feature that holds one text.
pub fn string_feature(x: String) -> (feature: Feature)
    ensures
        feature@ == text_value(x@),
{
    byte_feature(x.as_str().as_bytes_vec())
}

/// Puts a feature under a name.
fn named(name: &str, value: Feature) -> (feature: NamedFeature)
    ensures
        feature.name@ == name@,
        feature.value == value,
{
    NamedFeature { name: name.to_owned(), value }
}

impl ImageExample {
    /// Pairs metadata with an image of known dimensions.
    pub fn new(metadata: ImageMetadata, file: Vec<u8>, dimensions: Dimensions) -> (example: Self)
        ensures
            example.metadata == metadata,
            example.file == file,
            example.width == dimensions.width,
            example.height == dimensions.height,
    {
        ImageExample { metadata, file, width: dimensions.width, height: dimensions.height }
    }

    /// Writes the example out as its twelve named features.
    pub fn into_example(self) -> (features: Vec<NamedFeature>)
        ensures
            named_values(features@) == example_features(self@),
    {
        let mut features: Vec<NamedFeature> = Vec::new();
        features.push(named("comment_count", int_feature(self.metadata.comment_count)));
        features.push(named("fave_count", int_feature(self.metadata.fave_count)));
        features.push(named("view_count", int_feature(self.metadata.view_count)));
        features.push(named("height", int_feature(self.height)));
        features.push(named("width", int_feature(self.width)));
        features.push(named("license", string_feature(self.metadata.license)));
        features.push(named("tags", string_feature(self.metadata.tags)));
        features.push(named("title", string_feature(self.metadata.title)));
        features.push(named("description", string_feature(self.metadata.description)));
        features.push(named("owner", string_feature(self.metadata.owner)));
        features.push(named("img_src", string_feature(self.metadata.img_src)));
        features.push(named("image", byte_feature(self.file)));
        features
    }
}

} // verus!
