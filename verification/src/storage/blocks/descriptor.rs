//! The description of one kind of block.
use vstd::prelude::*;
use vstd::string::*;

verus! {

/// The texture file of one face of a block, as mathematics sees it.
pub struct TextureModel {
    pub face: Option<Seq<char>>,
    pub file: Option<Seq<char>>,
}

/// The texture file of one face of a block: the name of the face and the
/// name of the file, either of which may be missing.
#[derive(Debug, PartialEq, Eq)]
pub struct TextureEntry {
    pub face: Option<String>,
    pub file: Option<String>,
}

/// The characters of a string that may be missing.
pub open spec fn text_of(text: Option<String>) -> Option<Seq<char>> {
    match text {
        Some(s) => Some(s@),
        None => None,
    }
}

impl View for TextureEntry {
    type V = TextureModel;

    open spec fn view(&self) -> TextureModel {
        TextureModel { face: text_of(self.face), file: text_of(self.file) }
    }
}

/// The models of the entries in `entries`.
pub open spec fn textures_of(entries: Seq<TextureEntry>) -> Seq<TextureModel> {
    entries.map_values(|entry: TextureEntry| entry@)
}

/// The characters of each string in `names`.
pub open spec fn names_of(names: Seq<String>) -> Seq<Seq<char>> {
    names.map_values(|name: String| name@)
}

/// One kind of block, as mathematics sees it.
pub struct BlockModel {
    pub namespace: Seq<char>,
    pub name: Seq<char>,
    pub textures: Option<Seq<TextureModel>>,
    pub geometry: Option<Seq<char>>,
    pub auto_geo: Option<Seq<Seq<char>>>,
    pub has_item: Option<bool>,
}

/// One kind of block.
#[derive(Debug, PartialEq, Eq)]
pub struct BlockDescriptor {
    pub namespace: String,
    pub name: String,
    /// The texture files of the faces.
    pub textures: Option<Vec<TextureEntry>>,
    /// The name of the shape of the block.
    pub geometry: Option<String>,
    /// The names of the shapes for each of which a kind of its own is made.
    pub auto_geo: Option<Vec<String>>,
    /// Whether an item stands for the block.
    pub has_item: Option<bool>,
}

impl View for BlockDescriptor {
    type V = BlockModel;

    open spec fn view(&self) -> BlockModel {
        BlockModel {
            namespace: self.namespace@,
            name: self.name@,
            textures: match self.textures {
                Some(entries) => Some(textures_of(entries@)),
                None => None,
            },
            geometry: text_of(self.geometry),
            auto_geo: match self.auto_geo {
                Some(shapes) => Some(names_of(shapes@)),
                None => None,
            },
            has_item: self.has_item,
        }
    }
}

/// A copy of a string that may be missing.
fn clone_text(text: &Option<String>) -> (r: Option<String>)
    ensures
        r == *text,
{
    match text {
        Some(s) => Some(s.clone()),
        None => None,
    }
}

impl Clone for TextureEntry {
    /// An equal entry.
    fn clone(&self) -> (r: TextureEntry)
        ensures
            r == *self,
    {
        TextureEntry { face: clone_text(&self.face), file: clone_text(&self.file) }
    }
}

/// A copy of a list of texture entries.
fn clone_textures(entries: &Vec<TextureEntry>) -> (r: Vec<TextureEntry>)
    ensures
        r@ == entries@,
{
    let mut r: Vec<TextureEntry> = Vec::new();
    let mut i: usize = 0;
    while i < entries.len()
        invariant
            i <= entries.len(),
            r@ == entries@.take(i as int),
        decreases entries.len() - i,
    {
        r.push(entries[i].clone());
        i = i + 1;
    }
    r
}

/// A copy of a list of names.
fn clone_names(names: &Vec<String>) -> (r: Vec<String>)
    ensures
        r@ == names@,
{
    let mut r: Vec<String> = Vec::new();
    let mut i: usize = 0;
    while i < names.len()
        invariant
            i <= names.len(),
            r@ == names@.take(i as int),
        decreases names.len() - i,
    {
        r.push(names[i].clone());
        i = i + 1;
    }
    r
}

impl Clone for BlockDescriptor {
    /// An equal description.
    fn clone(&self) -> (r: BlockDescriptor)
        ensures
            r@ == self@,
    {
        BlockDescriptor {
            namespace: self.namespace.clone(),
            name: self.name.clone(),
            textures: match &self.textures {
                Some(entries) => Some(clone_textures(entries)),
                None => None,
            },
            geometry: clone_text(&self.geometry),
            auto_geo: match &self.auto_geo {
                Some(shapes) => Some(clone_names(shapes)),
                None => None,
            },
            has_item: self.has_item,
        }
    }
}

/// The name under which a kind of block is entered in the table of kinds:
/// its namespace, a colon, and its name.
pub open spec fn identifier_of(namespace: Seq<char>, name: Seq<char>) -> Seq<char> {
    namespace + seq![':'] + name
}

/// The name under which a kind of block is entered in the table of kinds.
pub fn identifier(namespace: &str, name: &str) -> (r: String)
    ensures
        r@ == identifier_of(namespace@, name@),
{
    proof {
        reveal_strlit(":");
    }
    let mut r = String::from_str(namespace);
    r.append(":");
    r.append(name);
    r
}

impl BlockDescriptor {
    /// The name under which the kind is entered in the table of kinds.
    pub fn identifier(&self) -> (r: String)
        ensures
            r@ == identifier_of(self@.namespace, self@.name),
    {
        identifier(self.namespace.as_str(), self.name.as_str())
    }
}

} // verus!
