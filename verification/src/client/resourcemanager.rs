//! The resource manager: a queue of assets waiting to be loaded, the
//! textures already loaded (keyed by name), and the two UI fonts.
//!
//! Loading itself — reading a bitmap or a TTF font from disk and turning it
//! into a GPU resource — happens outside this crate. The manager decides
//! which asset to load next, builds the path under the asset tree where it
//! lives, and records the handle that came back.

use smallvec::SmallVec;
use vstd::hash_map::StringHashMap;
use vstd::prelude::*;
use vstd::string::*;

verus! {

/// Where under the asset tree a texture lives: Litecraft's own assets or
/// the Minecraft resource pack.
#[derive(Clone, Copy, PartialEq, Eq, Structural, Debug)]
pub enum ResourseType {
    LitecraftTexture,
    MinecraftTexture,
}

/// A texture already uploaded to the renderer, named by its handle there.
#[derive(Clone, Copy, PartialEq, Eq, Structural, Debug)]
pub struct Texture {
    pub handle: u64,
}

/// A font already loaded by the renderer: its handle there and the pixel
/// size it was loaded at.
#[derive(Clone, Copy, PartialEq, Eq, Structural, Debug)]
pub struct Font {
    pub handle: u64,
    pub size: u32,
}

/// The relative path of an asset: `./assets/<domain>/<class>/<path>.<extension>`.
pub open spec fn asset_path(
    domain: Seq<char>,
    class: Seq<char>,
    path: Seq<char>,
    extension: Seq<char>,
) -> Seq<char> {
    "./assets/"@ + domain + "/"@ + class + "/"@ + path + "."@ + extension
}

/// How many assets the load queue starts with.
pub const LOAD_QUEUE_LEN: u64 = 11;

/// The name of the `i`th entry of the initial load queue.
pub open spec fn load_queue_name(i: int) -> Seq<char> {
    if i == 0 {
        "menu_1"@
    } else if i == 1 {
        "menu_2"@
    } else if i == 2 {
        "menu_3"@
    } else if i == 3 {
        "menu_4"@
    } else if i == 4 {
        "menu_5"@
    } else if i == 5 {
        "menu_6"@
    } else if i == 6 {
        "menu_7"@
    } else if i == 7 {
        "menu_8"@
    } else if i == 8 {
        "menu_9"@
    } else if i == 9 {
        "title"@
    } else {
        "gui/widgets"@
    }
}

/// The kind of the `i`th entry of the initial load queue: every entry is a
/// Litecraft texture except the widget sheet, which comes from the
/// Minecraft resource pack.
pub open spec fn load_queue_kind(i: int) -> ResourseType {
    if i == 10 {
        ResourseType::MinecraftTexture
    } else {
        ResourseType::LitecraftTexture
    }
}

/// The initial load queue: the indices of all eleven entries, in the order
/// they are queued. Entries leave from the back, so the widget sheet is
/// loaded first and `menu_1` last.
pub open spec fn initial_load_queue() -> Seq<u64> {
    seq![0u64, 1u64, 2u64, 3u64, 4u64, 5u64, 6u64, 7u64, 8u64, 9u64, 10u64]
}

impl ResourseType {
    /// The asset domain that textures of this kind are loaded from.
    pub fn domain(&self) -> (r: &'static str)
        ensures
            *self == ResourseType::LitecraftTexture ==> r@ == "litecraft"@,
            *self == ResourseType::MinecraftTexture ==> r@ == "minecraft"@,
    {
        match self {
            ResourseType::LitecraftTexture => "litecraft",
            ResourseType::MinecraftTexture => "minecraft",
        }
    }
}

/// The name and kind of the `i`th entry of the initial load queue.
pub fn load_queue_entry(i: u64) -> (r: (&'static str, ResourseType))
    requires
        i < LOAD_QUEUE_LEN,
    ensures
        r.0@ == load_queue_name(i as int),
        r.1 == load_queue_kind(i as int),
{
    match i {
        0 => ("menu_1", ResourseType::LitecraftTexture),
        1 => ("menu_2", ResourseType::LitecraftTexture),
        2 => ("menu_3", ResourseType::LitecraftTexture),
        3 => ("menu_4", ResourseType::LitecraftTexture),
        4 => ("menu_5", ResourseType::LitecraftTexture),
        5 => ("menu_6", ResourseType::LitecraftTexture),
        6 => ("menu_7", ResourseType::LitecraftTexture),
        7 => ("menu_8", ResourseType::LitecraftTexture),
        8 => ("menu_9", ResourseType::LitecraftTexture),
        9 => ("title", ResourseType::LitecraftTexture),
        _ => ("gui/widgets", ResourseType::MinecraftTexture),
    }
}

/// The load queue itself: a `smallvec::SmallVec` sized for the eleven
/// initial entries, held opaquely; the wrappers below say what its
/// operations do to `load_queue_elems`.
#[verifier::external_body]
pub struct LoadQueue {
    items: SmallVec<[u64; 11]>,
}

/// The entries a load queue holds, in order.
pub uninterp spec fn load_queue_elems(q: LoadQueue) -> Seq<u64>;

/// Relies on smallvec::SmallVec::from_buf: the result holds exactly the
/// array's items, in the array's order.
#[verifier::external_body]
fn load_queue_from_buf(buf: [u64; 11]) -> (r: LoadQueue)
    ensures
        load_queue_elems(r) == buf@,
{
    LoadQueue { items: SmallVec::from_buf(buf) }
}

/// Relies on smallvec::SmallVec::pop: removes and returns the last item,
/// or returns None and changes nothing when the vector is empty.
#[verifier::external_body]
fn load_queue_pop(q: &mut LoadQueue) -> (r: Option<u64>)
    ensures
        load_queue_elems(*old(q)).len() == 0 ==> r is None && load_queue_elems(*final(q))
            == load_queue_elems(*old(q)),
        load_queue_elems(*old(q)).len() > 0 ==> r == Some(load_queue_elems(*old(q)).last())
            && load_queue_elems(*final(q)) == load_queue_elems(*old(q)).drop_last(),
{
    q.items.pop()
}

/// Tracks which assets are loaded. The bitmaps and fonts themselves live
/// with the renderer; the manager holds their handles.
pub struct ResourceManager {
    textures: StringHashMap<Texture>,
    minecraft_font: Option<Font>,
    litecraft_font: Option<Font>,
    load_queue: LoadQueue,
}

/// What a resource manager holds: the loaded textures by name, the two
/// fonts if loaded, and the queue of assets still to load.
pub struct ResourceManagerView {
    pub textures: Map<Seq<char>, Texture>,
    pub minecraft_font: Option<Font>,
    pub litecraft_font: Option<Font>,
    pub load_queue: Seq<u64>,
}

impl View for ResourceManager {
    type V = ResourceManagerView;

    closed spec fn view(&self) -> ResourceManagerView {
        ResourceManagerView {
            textures: self.textures@,
            minecraft_font: self.minecraft_font,
            litecraft_font: self.litecraft_font,
            load_queue: load_queue_elems(self.load_queue),
        }
    }
}

impl ResourceManager {
    /// Every queued index points at an entry of the initial load queue.
    pub open spec fn wf(self) -> bool {
        forall|i: int|
            0 <= i < self@.load_queue.len() ==> self@.load_queue[i] < LOAD_QUEUE_LEN
    }

    /// A fresh manager: nothing loaded, the full queue waiting.
    pub fn new() -> (r: ResourceManager)
        ensures
            r.wf(),
            r@.textures == Map::<Seq<char>, Texture>::empty(),
            r@.minecraft_font is None,
            r@.litecraft_font is None,
            r@.load_queue == initial_load_queue(),
    {
        let buf: [u64; 11] = [0, 1, 2, 3, 4, 5, 6, 7, 8, 9, 10];
        let load_queue = load_queue_from_buf(buf);
        proof {
            assert(load_queue_elems(load_queue) =~= initial_load_queue());
        }
        ResourceManager {
            textures: StringHashMap::new(),
            minecraft_font: None,
            litecraft_font: None,
            load_queue,
        }
    }

    /// The font the Minecraft-style widgets are labelled with. Callers
    /// must have loaded it first: asking for a missing font is fatal.
    pub fn get_minecraft_font<'a>(&'a self) -> (r: &'a Font)
        requires
            self@.minecraft_font is Some,
        ensures
            Some(*r) == self@.minecraft_font,
    {
        match &self.minecraft_font {
            Some(font) => font,
            None => unreached(),
        }
    }

    /// The Litecraft title font. Callers must have loaded it first:
    /// asking for a missing font is fatal.
    pub fn get_litecraft_font<'a>(&'a self) -> (r: &'a Font)
        requires
            self@.litecraft_font is Some,
        ensures
            Some(*r) == self@.litecraft_font,
    {
        match &self.litecraft_font {
            Some(font) => font,
            None => unreached(),
        }
    }

    /// The texture loaded under `name`. Callers must have loaded it
    /// first: asking for a missing texture is fatal.
    pub fn get_texture<'a>(&'a self, name: &str) -> (r: &'a Texture)
        requires
            self@.textures.contains_key(name@),
        ensures
            *r == self@.textures[name@],
    {
        match self.textures.get(name) {
            Some(texture) => texture,
            None => unreached(),
        }
    }

    /// Records the fonts and the two textures that the loading screen needs
    /// (the window icon and its background), which the caller has loaded
    /// from the paths `get_asset` gives.
    pub fn load(
        &mut self,
        minecraft_font: Font,
        litecraft_font: Font,
        logo: Texture,
        background: Texture,
    )
        ensures
            final(self)@.minecraft_font == Some(minecraft_font),
            final(self)@.litecraft_font == Some(litecraft_font),
            final(self)@.textures == old(self)@.textures.insert("logo"@, logo).insert(
                "background"@,
                background,
            ),
            final(self)@.load_queue == old(self)@.load_queue,
    {
        self.minecraft_font = Some(minecraft_font);
        self.litecraft_font = Some(litecraft_font);
        self.insert_texture("logo", logo);
        self.insert_texture("background", background);
    }

    /// Takes the next asset off the load queue and says which texture the
    /// caller should now load, or returns None when the queue is drained.
    pub fn load_assets(&mut self) -> (r: Option<(&'static str, ResourseType)>)
        requires
            old(self).wf(),
        ensures
            final(self).wf(),
            final(self)@.textures == old(self)@.textures,
            final(self)@.minecraft_font == old(self)@.minecraft_font,
            final(self)@.litecraft_font == old(self)@.litecraft_font,
            old(self)@.load_queue.len() == 0 ==> r is None && final(self)@.load_queue == old(
                self,
            )@.load_queue,
            old(self)@.load_queue.len() > 0 ==> {
                &&& r is Some
                &&& r->Some_0.0@ == load_queue_name(old(self)@.load_queue.last() as int)
                &&& r->Some_0.1 == load_queue_kind(old(self)@.load_queue.last() as int)
                &&& final(self)@.load_queue == old(self)@.load_queue.drop_last()
            },
    {
        match load_queue_pop(&mut self.load_queue) {
            Some(index) => Some(load_queue_entry(index)),
            None => None,
        }
    }

    /// The texture loaded under `name`, or None when no texture of that
    /// name has been loaded.
    pub fn try_get_texture<'a>(&'a self, name: &str) -> (r: Option<&'a Texture>)
        ensures
            match r {
                Some(texture) => self@.textures.contains_key(name@) && *texture
                    == self@.textures[name@],
                None => !self@.textures.contains_key(name@),
            },
    {
        self.textures.get(name)
    }

    /// Records a texture the caller has loaded under its name.
    pub fn insert_texture(&mut self, name: &str, texture: Texture)
        ensures
            final(self)@.textures == old(self)@.textures.insert(name@, texture),
            final(self)@.minecraft_font == old(self)@.minecraft_font,
            final(self)@.litecraft_font == old(self)@.litecraft_font,
            final(self)@.load_queue == old(self)@.load_queue,
    {
        self.textures.insert(name.to_owned(), texture);
    }

    /// Builds the relative path of an asset under the asset tree.
    pub fn get_asset(domain: &str, class: &str, path: &str, extension: &str) -> (r: String)
        ensures
            r@ == asset_path(domain@, class@, path@, extension@),
    {
        let mut s = String::from_str("./assets/");
        s.append(domain);
        s.append("/");
        s.append(class);
        s.append("/");
        s.append(path);
        s.append(".");
        s.append(extension);
        proof {
            assert(s@ =~= asset_path(domain@, class@, path@, extension@));
        }
        s
    }
}

} // verus!
