//! Where the textures of a kind of block are found, and which faces each
//! goes to.
use crate::storage::blocks::descriptor::{textures_of, TextureEntry, TextureModel};
use vstd::prelude::*;
use vstd::string::*;

verus! {

/// The faces of a block that can carry a texture of their own.
pub const FACES: usize = 6;

/// Where the texture file `file` of the kind of block `block` is found
/// among the assets: in the directory of the block, under `blocks`.
pub open spec fn texture_path_of(block: Seq<char>, file: Seq<char>) -> Seq<char> {
    "blocks/"@ + block + seq!['/'] + file
}

/// Where the texture file `file` of the kind of block `block` is found among
/// the assets.
pub fn texture_path(block: &str, file: &str) -> (r: String)
    ensures
        r@ == texture_path_of(block@, file@),
{
    proof {
        reveal_strlit("/");
    }
    let mut r = String::from_str("blocks/");
    r.append(block);
    r.append("/");
    r.append(file);
    r
}

/// The place, among the six textures of a block, of the texture of the face
/// called `face`: `up`, `down`, `left`, `right`, `front` and `back`, in this
/// order; `None` for any other name.
pub open spec fn texture_slot_of(face: Seq<char>) -> Option<usize> {
    if face == "up"@ {
        Some(0)
    } else if face == "down"@ {
        Some(1)
    } else if face == "left"@ {
        Some(2)
    } else if face == "right"@ {
        Some(3)
    } else if face == "front"@ {
        Some(4)
    } else if face == "back"@ {
        Some(5)
    } else {
        None
    }
}

/// The place, among the six textures of a block, of the texture of the face
/// called `face`.
pub fn texture_slot(face: &str) -> (r: Option<usize>)
    ensures
        r == texture_slot_of(face@),
        r matches Some(slot) ==> slot < FACES,
{
    let face = String::from_str(face);
    if face == String::from_str("up") {
        Some(0)
    } else if face == String::from_str("down") {
        Some(1)
    } else if face == String::from_str("left") {
        Some(2)
    } else if face == String::from_str("right") {
        Some(3)
    } else if face == String::from_str("front") {
        Some(4)
    } else if face == String::from_str("back") {
        Some(5)
    } else {
        None
    }
}

/// The faces that a texture goes to.
#[derive(Clone, Copy, Debug, PartialEq, Eq, Structural)]
pub enum TextureTarget {
    /// Every face.
    Every,
    /// The face at this place among the six.
    Face(usize),
    /// No face.
    Unused,
}

/// A texture to load, as mathematics sees it.
pub struct LoadModel {
    pub path: Seq<char>,
    pub target: TextureTarget,
}

/// A texture to load: where it is found among the assets, and the faces that
/// it goes to.
#[derive(Debug, PartialEq, Eq)]
pub struct TextureLoad {
    pub path: String,
    pub target: TextureTarget,
}

impl View for TextureLoad {
    type V = LoadModel;

    open spec fn view(&self) -> LoadModel {
        LoadModel { path: self.path@, target: self.target }
    }
}

/// The models of the loads in `loads`.
pub open spec fn loads_of(loads: Seq<TextureLoad>) -> Seq<LoadModel> {
    loads.map_values(|load: TextureLoad| load@)
}

/// Whether the entry is that of the face called `front`.
pub open spec fn is_front(entry: TextureModel) -> bool {
    entry.face == Some("front"@)
}

/// The index of the first entry at or after `from` that is the front's, if
/// there is one.
pub open spec fn first_front(entries: Seq<TextureModel>, from: int) -> Option<int>
    decreases entries.len() - from,
{
    if from < 0 || from >= entries.len() {
        None
    } else if is_front(entries[from]) {
        Some(from)
    } else {
        first_front(entries, from + 1)
    }
}

/// Whether every entry of the front names a file.
pub open spec fn fronts_have_files(entries: Seq<TextureModel>) -> bool {
    forall|i: int| 0 <= i < entries.len() && is_front(#[trigger] entries[i]) ==> entries[i].file is Some
}

/// The load that stands for every face: that of the front's file, where the
/// front has an entry.
pub open spec fn front_load(block: Seq<char>, entries: Seq<TextureModel>) -> Seq<LoadModel> {
    match first_front(entries, 0) {
        Some(i) => seq![
            LoadModel {
                path: texture_path_of(block, entries[i].file.unwrap()),
                target: TextureTarget::Every,
            },
        ],
        None => Seq::empty(),
    }
}

/// The load that the entry asks for: none where the face or the file is
/// missing; else that of the file, for the face that is named, or for none
/// where the name is that of no face.
pub open spec fn face_load(block: Seq<char>, entry: TextureModel) -> Option<LoadModel> {
    match (entry.face, entry.file) {
        (Some(face), Some(file)) => Some(
            LoadModel {
                path: texture_path_of(block, file),
                target: match texture_slot_of(face) {
                    Some(slot) => TextureTarget::Face(slot),
                    None => TextureTarget::Unused,
                },
            },
        ),
        _ => None,
    }
}

/// [`face_load`] as a function of the entry.
pub open spec fn face_load_fn(block: Seq<char>) -> spec_fn(TextureModel) -> Option<LoadModel> {
    |entry: TextureModel| face_load(block, entry)
}

/// The textures to load for the kind of block `block` with the texture
/// entries `entries`, in the order in which they are put on the faces: first
/// the front's file for every face, then the file of each entry for its own
/// face.
pub open spec fn texture_loads_of(block: Seq<char>, entries: Seq<TextureModel>) -> Seq<LoadModel> {
    front_load(block, entries) + entries.filter_map(face_load_fn(block))
}

/// The textures to load for the kind of block `block` with the texture
/// entries `textures`. Every entry of the front must name a file.
pub fn texture_loads(block: &str, textures: &Vec<TextureEntry>) -> (r: Vec<TextureLoad>)
    requires
        fronts_have_files(textures_of(textures@)),
    ensures
        loads_of(r@) == texture_loads_of(block@, textures_of(textures@)),
{
    let ghost entries = textures_of(textures@);
    let mut loads: Vec<TextureLoad> = Vec::new();
    let front = String::from_str("front");
    let mut i: usize = 0;
    while i < textures.len()
        invariant_except_break
            loads@.len() == 0,
            first_front(entries, 0) == first_front(entries, i as int),
        invariant
            i <= textures.len(),
            entries == textures_of(textures@),
            fronts_have_files(entries),
            front@ == "front"@,
        ensures
            loads_of(loads@) == front_load(block@, entries),
        decreases textures.len() - i,
    {
        let is_front = match &textures[i].face {
            Some(face) => *face == front,
            None => false,
        };
        if is_front {
            if let Some(file) = &textures[i].file {
                loads.push(
                    TextureLoad {
                        path: texture_path(block, file.as_str()),
                        target: TextureTarget::Every,
                    },
                );
            }
            break ;
        }
        i = i + 1;
    }
    let mut k: usize = 0;
    while k < textures.len()
        invariant
            k <= textures.len(),
            entries == textures_of(textures@),
            loads_of(loads@) == front_load(block@, entries) + entries.take(k as int).filter_map(
                face_load_fn(block@),
            ),
        decreases textures.len() - k,
    {
        proof {
            entries.lemma_filter_map_take_succ(face_load_fn(block@), k as int);
        }
        let ghost earlier = loads@;
        match (&textures[k].face, &textures[k].file) {
            (Some(face), Some(file)) => {
                let target = match texture_slot(face.as_str()) {
                    Some(slot) => TextureTarget::Face(slot),
                    None => TextureTarget::Unused,
                };
                let load = TextureLoad { path: texture_path(block, file.as_str()), target };
                loads.push(load);
                assert(loads_of(loads@) =~= loads_of(earlier).push(load@));
            },
            _ => {},
        }
        k = k + 1;
    }
    assert(entries.take(k as int) =~= entries);
    loads
}

} // verus!
