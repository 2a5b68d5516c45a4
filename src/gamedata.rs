use crate::config_file::ConfigFile;
use vstd::prelude::*;
use vstd::string::*;
use vstd::utf8::{decode_utf8, valid_utf8};

verus! {

/// The name of the project descriptor inside a bundle.
pub const CONFIG_FILE_NAME: &'static str = "data.json";

/// The extension of fragment shader sources.
pub const SHADER_EXTENSION: &'static str = ".frag";

/// The extension of images.
pub const IMAGE_EXTENSION: &'static str = ".png";

/// Why a bundle could not be read.
#[derive(Debug)]
pub enum GameDataError {
    /// The archive could not be read; the text says why.
    TarError(String),
    /// `data.json` is not a valid project descriptor; the text says why.
    ConfigFileParseError(String),
    /// The bundle holds no `data.json`.
    MissingConfigFile,
}

/// One file of a bundle: its path inside the archive and its bytes.
pub struct BundleEntry {
    pub path: String,
    pub data: Vec<u8>,
}

/// A shader source of a bundle.
pub struct ShaderSource {
    pub path: String,
    pub text: String,
}

/// The files of a bundle, sorted by kind. Later entries with a path win over
/// earlier ones.
pub struct BundleFiles {
    /// The bytes of the last `data.json`.
    pub config_text: Vec<u8>,
    /// The `*.png` files.
    pub textures: Vec<BundleEntry>,
    /// The `*.frag` files.
    pub shader_sources: Vec<ShaderSource>,
}

/// Everything the engine is built from: the project and the files it refers to.
pub struct GameData {
    pub config_file: ConfigFile,
    pub textures: Vec<BundleEntry>,
    pub shader_sources: Vec<ShaderSource>,
}

/// Whether `s` ends with `suffix`.
pub open spec fn has_suffix(s: Seq<char>, suffix: Seq<char>) -> bool {
    s.len() >= suffix.len() && s.subrange(s.len() - suffix.len(), s.len() as int) == suffix
}

/// The index of the last shader whose path is `path`.
pub open spec fn last_shader_index(sources: Seq<ShaderSource>, path: Seq<char>) -> Option<int>
    decreases sources.len(),
{
    if sources.len() == 0 {
        None
    } else if sources.last().path@ == path {
        Some(sources.len() - 1)
    } else {
        last_shader_index(sources.drop_last(), path)
    }
}

/// The index of the last texture whose path is `path`.
pub open spec fn last_texture_index(files: Seq<BundleEntry>, path: Seq<char>) -> Option<int>
    decreases files.len(),
{
    if files.len() == 0 {
        None
    } else if files.last().path@ == path {
        Some(files.len() - 1)
    } else {
        last_texture_index(files.drop_last(), path)
    }
}

proof fn lemma_last_shader_index_bounds(sources: Seq<ShaderSource>, path: Seq<char>)
    ensures
        last_shader_index(sources, path) matches Some(i) ==> 0 <= i < sources.len()
            && sources[i].path@ == path,
    decreases sources.len(),
{
    if sources.len() > 0 && sources.last().path@ != path {
        lemma_last_shader_index_bounds(sources.drop_last(), path);
    }
}

proof fn lemma_last_texture_index_bounds(files: Seq<BundleEntry>, path: Seq<char>)
    ensures
        last_texture_index(files, path) matches Some(i) ==> 0 <= i < files.len() && files[i].path@
            == path,
    decreases files.len(),
{
    if files.len() > 0 && files.last().path@ != path {
        lemma_last_texture_index_bounds(files.drop_last(), path);
    }
}

/// Finds the shader source stored under `path`.
pub fn find_shader(sources: &Vec<ShaderSource>, path: &String) -> (r: Option<usize>)
    ensures
        r matches Some(i) ==> last_shader_index(sources@, path@) == Some(i as int),
        r is None ==> last_shader_index(sources@, path@) is None,
{
    let mut i: usize = sources.len();
    assert(sources@.subrange(0, i as int) =~= sources@);
    while i > 0
        invariant
            i <= sources@.len(),
            last_shader_index(sources@, path@) == last_shader_index(sources@.subrange(0, i as int), path@),
        decreases i,
    {
        let ghost prefix = sources@.subrange(0, i as int);
        if sources[i - 1].path == *path {
            return Some(i - 1);
        }
        assert(prefix.drop_last() =~= sources@.subrange(0, i - 1));
        i = i - 1;
    }
    None
}

/// Finds the image stored under `path`.
pub fn find_texture(files: &Vec<BundleEntry>, path: &String) -> (r: Option<usize>)
    ensures
        r matches Some(i) ==> last_texture_index(files@, path@) == Some(i as int),
        r is None ==> last_texture_index(files@, path@) is None,
{
    let mut i: usize = files.len();
    assert(files@.subrange(0, i as int) =~= files@);
    while i > 0
        invariant
            i <= files@.len(),
            last_texture_index(files@, path@) == last_texture_index(files@.subrange(0, i as int), path@),
        decreases i,
    {
        let ghost prefix = files@.subrange(0, i as int);
        if files[i - 1].path == *path {
            return Some(i - 1);
        }
        assert(prefix.drop_last() =~= files@.subrange(0, i - 1));
        i = i - 1;
    }
    None
}

/// Relies on `String::from_utf8`: it succeeds exactly on valid UTF-8, keeping the
/// characters the bytes encode.
#[verifier::external_body]
fn utf8_text(bytes: Vec<u8>) -> (r: Option<String>)
    ensures
        r is Some <==> valid_utf8(bytes@),
        r matches Some(s) ==> s@ == decode_utf8(bytes@),
{
    String::from_utf8(bytes).ok()
}

/// Returns whether `s` ends with `suffix`.
pub fn ends_with(s: &str, suffix: &str) -> (r: bool)
    ensures
        r == has_suffix(s@, suffix@),
{
    let n = s.unicode_len();
    let m = suffix.unicode_len();
    if m > n {
        return false;
    }
    let mut i: usize = 0;
    while i < m
        invariant
            n == s@.len(),
            m == suffix@.len(),
            m <= n,
            i <= m,
            forall|j: int| 0 <= j < i ==> s@[n - m + j] == suffix@[j],
        decreases m - i,
    {
        if s.get_char(n - m + i) != suffix.get_char(i) {
            assert(s@.subrange(n - m, n as int)[i as int] != suffix@[i as int]);
            return false;
        }
        i = i + 1;
    }
    assert(s@.subrange(n - m, n as int) =~= suffix@);
    true
}

/// Whether an entry is the project descriptor.
pub open spec fn is_config_entry(e: BundleEntry) -> bool {
    e.path@ == CONFIG_FILE_NAME@
}

/// Whether an entry is a shader source.
pub open spec fn is_shader_entry(e: BundleEntry) -> bool {
    !is_config_entry(e) && has_suffix(e.path@, SHADER_EXTENSION@)
}

/// Whether an entry is an image.
pub open spec fn is_image_entry(e: BundleEntry) -> bool {
    !is_config_entry(e) && !is_shader_entry(e) && has_suffix(e.path@, IMAGE_EXTENSION@)
}

/// The image entries, in order.
pub open spec fn image_entries(entries: Seq<BundleEntry>) -> Seq<BundleEntry>
    decreases entries.len(),
{
    if entries.len() == 0 {
        seq![]
    } else if is_image_entry(entries.last()) {
        image_entries(entries.drop_last()).push(entries.last())
    } else {
        image_entries(entries.drop_last())
    }
}

/// The shader entries, in order.
pub open spec fn shader_entries(entries: Seq<BundleEntry>) -> Seq<BundleEntry>
    decreases entries.len(),
{
    if entries.len() == 0 {
        seq![]
    } else if is_shader_entry(entries.last()) {
        shader_entries(entries.drop_last()).push(entries.last())
    } else {
        shader_entries(entries.drop_last())
    }
}

/// The bytes of the last project descriptor, if any.
pub open spec fn config_entry_data(entries: Seq<BundleEntry>) -> Option<Seq<u8>>
    decreases entries.len(),
{
    if entries.len() == 0 {
        None
    } else if is_config_entry(entries.last()) {
        Some(entries.last().data@)
    } else {
        config_entry_data(entries.drop_last())
    }
}

/// The index of the first shader entry that is not UTF-8.
pub open spec fn first_bad_shader(entries: Seq<BundleEntry>) -> Option<int>
    decreases entries.len(),
{
    if entries.len() == 0 {
        None
    } else {
        match first_bad_shader(entries.drop_last()) {
            Some(i) => Some(i),
            None => if is_shader_entry(entries.last()) && !valid_utf8(entries.last().data@) {
                Some(entries.len() - 1)
            } else {
                None
            },
        }
    }
}

/// The sources hold the shader entries in order, decoded.
pub open spec fn shaders_decoded(sources: Seq<ShaderSource>, entries: Seq<BundleEntry>) -> bool {
    &&& sources.len() == entries.len()
    &&& forall|i: int|
        0 <= i < sources.len() ==> (#[trigger] sources[i]).path@ == entries[i].path@ && sources[i].text@
            == decode_utf8(entries[i].data@)
}

/// A bad shader in a prefix stays the first bad shader of the whole sequence.
proof fn lemma_first_bad_shader_prefix(s: Seq<BundleEntry>, k: int, i: int)
    requires
        0 <= k <= s.len(),
        first_bad_shader(s.subrange(0, k)) == Some(i),
    ensures
        first_bad_shader(s) == Some(i),
    decreases s.len() - k,
{
    if k == s.len() {
        assert(s.subrange(0, k) =~= s);
    } else {
        assert(s.subrange(0, k + 1).drop_last() =~= s.subrange(0, k));
        lemma_first_bad_shader_prefix(s, k + 1, i);
    }
}

impl BundleFiles {
    /// Sorts the files of a bundle by kind: `data.json`, `*.frag` sources (which
    /// must be UTF-8) and `*.png` images. Other files are ignored.
    pub fn from_entries(entries: Vec<BundleEntry>) -> (r: Result<BundleFiles, GameDataError>)
        ensures
            first_bad_shader(entries@) matches Some(i) ==> r matches Err(GameDataError::TarError(p))
                && p@ == entries@[i].path@,
            first_bad_shader(entries@) is None && config_entry_data(entries@) is None ==> r matches Err(
                GameDataError::MissingConfigFile,
            ),
            first_bad_shader(entries@) is None && config_entry_data(entries@) is Some ==> r is Ok,
            r matches Ok(b) ==> {
                &&& first_bad_shader(entries@) is None
                &&& config_entry_data(entries@) == Some(b.config_text@)
                &&& b.textures@ == image_entries(entries@)
                &&& shaders_decoded(b.shader_sources@, shader_entries(entries@))
            },
    {
        let ghost all = entries@;
        let mut rest = entries;
        let mut config_text: Option<Vec<u8>> = None;
        let mut textures: Vec<BundleEntry> = Vec::new();
        let mut shader_sources: Vec<ShaderSource> = Vec::new();
        let config_name = String::from_str(CONFIG_FILE_NAME);
        let ghost mut done: int = 0;
        while rest.len() > 0
            invariant
                0 <= done <= all.len(),
                all == entries@,
                rest@ == all.subrange(done, all.len() as int),
                first_bad_shader(all.subrange(0, done)) is None,
                match config_text {
                    Some(c) => config_entry_data(all.subrange(0, done)) == Some(c@),
                    None => config_entry_data(all.subrange(0, done)) is None,
                },
                textures@ == image_entries(all.subrange(0, done)),
                config_name@ == CONFIG_FILE_NAME@,
                shaders_decoded(shader_sources@, shader_entries(all.subrange(0, done))),
            decreases rest.len(),
        {
            let ghost before = all.subrange(0, done);
            let e = rest.remove(0);
            assert(e == all[done]);
            let ghost after = all.subrange(0, done + 1);
            assert(after.drop_last() =~= before);
            assert(after.last() == e);
            proof {
                done = done + 1;
            }
            assert(rest@ =~= all.subrange(done, all.len() as int));
            if e.path == config_name {
                config_text = Some(e.data);
            } else if ends_with(e.path.as_str(), SHADER_EXTENSION) {
                let BundleEntry { path, data } = e;
                match utf8_text(data) {
                    Some(text) => {
                        shader_sources.push(ShaderSource { path, text });
                    },
                    None => {
                        proof {
                            assert(is_shader_entry(after.last()));
                            assert(!valid_utf8(after.last().data@));
                            assert(first_bad_shader(after) == Some(done - 1));
                            lemma_first_bad_shader_prefix(all, done, done - 1);
                        }
                        return Err(GameDataError::TarError(path));
                    },
                }
            } else if ends_with(e.path.as_str(), IMAGE_EXTENSION) {
                textures.push(e);
            }
        }
        assert(all.subrange(0, done) =~= all);
        match config_text {
            Some(c) => Ok(BundleFiles { config_text: c, textures, shader_sources }),
            None => Err(GameDataError::MissingConfigFile),
        }
    }
}

impl GameData {
    /// Returns the text of the shader source stored under `path`, if any.
    pub fn shader_source(&self, path: &String) -> (r: Option<&String>)
        ensures
            r matches Some(t) ==> last_shader_index(self.shader_sources@, path@) matches Some(i)
                && *t == self.shader_sources@[i].text,
            r is None ==> last_shader_index(self.shader_sources@, path@) is None,
    {
        proof {
            lemma_last_shader_index_bounds(self.shader_sources@, path@);
        }
        match find_shader(&self.shader_sources, path) {
            Some(i) => Some(&self.shader_sources[i].text),
            None => None,
        }
    }

    /// Returns the bytes of the image stored under `path`, if any.
    pub fn texture(&self, path: &String) -> (r: Option<&Vec<u8>>)
        ensures
            r matches Some(t) ==> last_texture_index(self.textures@, path@) matches Some(i) && *t
                == self.textures@[i].data,
            r is None ==> last_texture_index(self.textures@, path@) is None,
    {
        proof {
            lemma_last_texture_index_bounds(self.textures@, path@);
        }
        match find_texture(&self.textures, path) {
            Some(i) => Some(&self.textures[i].data),
            None => None,
        }
    }
}

} // verus!
