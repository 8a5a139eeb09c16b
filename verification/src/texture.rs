//! The texture bank: a closed, ordered set of named textures, each resolved
//! to one file of the asset directory.

use image::ImageFormat;
use vstd::prelude::*;
use vstd::string::StringExecFns;

verus! {

/// How the image of a texture is encoded on disk.
#[derive(Clone, Copy, Debug, PartialEq, Eq, Structural)]
pub enum ImageEncoding {
    Png,
    Jpeg,
    Gif,
    WebP,
    Pnm,
    Tiff,
    Tga,
    Dds,
    Bmp,
    Ico,
    Hdr,
    OpenExr,
    Farbfeld,
    Avif,
    Qoi,
}

/// A texture that the application declares: its name, which is the stem of
/// its file, and the encoding of that file.
#[derive(Clone, Debug, PartialEq, Eq)]
pub struct TextureDescriptor {
    pub name: String,
    pub encoding: ImageEncoding,
}

/// A declared texture together with the file that was found for it.
#[derive(Clone, Debug, PartialEq, Eq)]
pub struct TextureEntry {
    pub name: String,
    pub encoding: ImageEncoding,
    /// Name of the file inside the asset directory.
    pub file: String,
}

/// Why a texture could not be had.
#[derive(Clone, Debug, PartialEq, Eq)]
pub enum TextureError {
    /// No file exists for the texture of this name.
    TextureNotFound { name: String },
    /// The file of the texture of this name holds no image in the encoding
    /// that the texture declares.
    InvalidImage { name: String },
    /// The image of the texture of this name is too wide to be uploaded.
    OversizedImage { name: String },
}

/// The file extensions of an encoding, in the order in which they are tried.
pub open spec fn extensions_of(encoding: ImageEncoding) -> Seq<Seq<char>> {
    match encoding {
        ImageEncoding::Png => seq!["png"@],
        ImageEncoding::Jpeg => seq!["jpg"@, "jpeg"@],
        ImageEncoding::Gif => seq!["gif"@],
        ImageEncoding::WebP => seq!["webp"@],
        ImageEncoding::Pnm => seq!["pbm"@, "pam"@, "ppm"@, "pgm"@],
        ImageEncoding::Tiff => seq!["tiff"@, "tif"@],
        ImageEncoding::Tga => seq!["tga"@],
        ImageEncoding::Dds => seq!["dds"@],
        ImageEncoding::Bmp => seq!["bmp"@],
        ImageEncoding::Ico => seq!["ico"@],
        ImageEncoding::Hdr => seq!["hdr"@],
        ImageEncoding::OpenExr => seq!["exr"@],
        ImageEncoding::Farbfeld => seq!["ff"@],
        ImageEncoding::Avif => seq!["avif"@],
        ImageEncoding::Qoi => seq!["qoi"@],
    }
}

/// The strings of `v`, each by its characters.
pub open spec fn texts(v: Seq<String>) -> Seq<Seq<char>> {
    Seq::new(v.len(), |i: int| v[i]@)
}

/// Name of the file with the given stem and extension.
pub open spec fn file_name(stem: Seq<char>, extension: Seq<char>) -> Seq<char> {
    stem + seq!['.'] + extension
}

/// The file names under which a texture may be stored, in the order in which
/// they are tried.
pub open spec fn candidates(stem: Seq<char>, encoding: ImageEncoding) -> Seq<Seq<char>> {
    Seq::new(
        extensions_of(encoding).len(),
        |i: int| file_name(stem, extensions_of(encoding)[i]),
    )
}

/// `names[i]` is the first of `names` that occurs in `present`.
pub open spec fn is_first_present(names: Seq<Seq<char>>, present: Seq<Seq<char>>, i: int)
    -> bool {
    &&& 0 <= i < names.len()
    &&& present.contains(names[i])
    &&& forall|j: int| 0 <= j < i ==> !present.contains(#[trigger] names[j])
}

/// None of `names` occurs in `present`.
pub open spec fn none_present(names: Seq<Seq<char>>, present: Seq<Seq<char>>) -> bool {
    forall|j: int| 0 <= j < names.len() ==> !present.contains(#[trigger] names[j])
}

/// The texture of the given name and encoding has a file among `present`:
/// one of its candidate names occurs there.
pub open spec fn is_available(stem: Seq<char>, encoding: ImageEncoding, present: Seq<Seq<char>>)
    -> bool {
    exists|i: int|
        0 <= i < candidates(stem, encoding).len() && present.contains(
            #[trigger] candidates(stem, encoding)[i],
        )
}

/// `entry` is the descriptor `descriptor` resolved against `present`: same
/// name, same encoding, and the first candidate file that is present.
pub open spec fn resolves(
    descriptor: TextureDescriptor,
    present: Seq<Seq<char>>,
    entry: TextureEntry,
) -> bool {
    &&& entry.name@ == descriptor.name@
    &&& entry.encoding == descriptor.encoding
    &&& exists|i: int|
        is_first_present(candidates(descriptor.name@, descriptor.encoding), present, i)
            && entry.file@ == candidates(descriptor.name@, descriptor.encoding)[i]
}

/// The file extensions of `encoding`, first choice first.
///
/// Trusted: `image::ImageFormat::extensions_str` returns, for each format,
/// the fixed list that `extensions_of` spells out.
#[verifier::external_body]
fn known_extensions(encoding: ImageEncoding) -> (extensions: Vec<String>)
    ensures
        texts(extensions@) == extensions_of(encoding),
{
    let format = match encoding {
        ImageEncoding::Png => ImageFormat::Png, ImageEncoding::Jpeg => ImageFormat::Jpeg,
        ImageEncoding::Gif => ImageFormat::Gif, ImageEncoding::WebP => ImageFormat::WebP,
        ImageEncoding::Pnm => ImageFormat::Pnm, ImageEncoding::Tiff => ImageFormat::Tiff,
        ImageEncoding::Tga => ImageFormat::Tga, ImageEncoding::Dds => ImageFormat::Dds,
        ImageEncoding::Bmp => ImageFormat::Bmp, ImageEncoding::Ico => ImageFormat::Ico,
        ImageEncoding::Hdr => ImageFormat::Hdr, ImageEncoding::OpenExr => ImageFormat::OpenExr,
        ImageEncoding::Farbfeld => ImageFormat::Farbfeld, ImageEncoding::Avif => ImageFormat::Avif,
        ImageEncoding::Qoi => ImageFormat::Qoi,
    };
    format.extensions_str().iter().map(|e| e.to_string()).collect()
}

/// The name of the file with the given stem and extension.
fn join_file_name(stem: &String, extension: &String) -> (file: String)
    ensures
        file@ == file_name(stem@, extension@),
{
    proof {
        reveal_strlit(".");
    }
    let mut file = stem.clone();
    file.append(".");
    file.append(extension.as_str());
    assert(file@ =~= file_name(stem@, extension@)) by {
        assert("."@ =~= seq!['.']);
    }
    file
}

/// Tells whether `name` is one of `present`.
fn is_present(name: &String, present: &Vec<String>) -> (found: bool)
    ensures
        found == texts(present@).contains(name@),
{
    let mut k: usize = 0;
    while k < present.len()
        invariant
            k <= present@.len(),
            forall|j: int| 0 <= j < k ==> texts(present@)[j] != name@,
        decreases present@.len() - k,
    {
        if present[k] == *name {
            assert(texts(present@)[k as int] == name@);
            return true;
        }
        k += 1;
    }
    false
}

impl TextureError {
    /// The name of the texture that the error is about.
    pub fn texture(&self) -> (name: &String)
        ensures
            match *self {
                TextureError::TextureNotFound { name: n } => *name == n,
                TextureError::InvalidImage { name: n } => *name == n,
                TextureError::OversizedImage { name: n } => *name == n,
            },
    {
        match self {
            TextureError::TextureNotFound { name } => name,
            TextureError::InvalidImage { name } => name,
            TextureError::OversizedImage { name } => name,
        }
    }

    /// The error in words, such as `Texture NAME not found`.
    pub fn message(&self) -> (text: String)
        ensures
            match *self {
                TextureError::TextureNotFound { name } => text@ == "Texture "@ + name@
                    + " not found"@,
                TextureError::InvalidImage { name } => text@ == "Texture "@ + name@
                    + " is not a valid image"@,
                TextureError::OversizedImage { name } => text@ == "Texture "@ + name@
                    + " is too wide"@,
            },
    {
        let mut text = String::from_str("Texture ");
        text.append(self.texture().as_str());
        match self {
            TextureError::TextureNotFound { .. } => text.append(" not found"),
            TextureError::InvalidImage { .. } => text.append(" is not a valid image"),
            TextureError::OversizedImage { .. } => text.append(" is too wide"),
        }
        text
    }
}

impl TextureDescriptor {
    /// The texture of the given name and encoding.
    pub fn new(name: String, encoding: ImageEncoding) -> (descriptor: TextureDescriptor)
        ensures
            descriptor.name == name,
            descriptor.encoding == encoding,
    {
        TextureDescriptor { name, encoding }
    }

    /// The file names under which this texture may be stored, first choice
    /// first: the name, a dot, and each extension of the encoding in turn.
    pub fn candidates(&self) -> (names: Vec<String>)
        ensures
            texts(names@) == candidates(self.name@, self.encoding),
    {
        let extensions = known_extensions(self.encoding);
        let mut names: Vec<String> = Vec::new();
        let mut i: usize = 0;
        while i < extensions.len()
            invariant
                i <= extensions@.len(),
                texts(extensions@) == extensions_of(self.encoding),
                names@.len() == i,
                forall|j: int|
                    0 <= j < i ==> (#[trigger] names@[j])@ == file_name(
                        self.name@,
                        extensions_of(self.encoding)[j],
                    ),
            decreases extensions@.len() - i,
        {
            assert(texts(extensions@)[i as int] == extensions@[i as int]@);
            names.push(join_file_name(&self.name, &extensions[i]));
            i += 1;
        }
        assert(texts(names@) =~= candidates(self.name@, self.encoding));
        names
    }

    /// Picks the file of this texture: the first candidate that is among
    /// `present`, the names of the files that exist. `None` when no
    /// candidate exists.
    pub fn locate(&self, present: &Vec<String>) -> (entry: Option<TextureEntry>)
        ensures
            match entry {
                Some(e) => resolves(*self, texts(present@), e),
                None => none_present(candidates(self.name@, self.encoding), texts(present@)),
            },
    {
        let mut names = self.candidates();
        let ghost all = texts(names@);
        let mut i: usize = 0;
        while i < names.len()
            invariant
                i <= names@.len(),
                texts(names@) == all,
                all == candidates(self.name@, self.encoding),
                forall|j: int| 0 <= j < i ==> !texts(present@).contains(#[trigger] all[j]),
            decreases names@.len() - i,
        {
            assert(all[i as int] == names@[i as int]@);
            if is_present(&names[i], present) {
                let file = names[i].clone();
                let entry = TextureEntry {
                    name: self.name.clone(),
                    encoding: self.encoding,
                    file,
                };
                assert(is_first_present(all, texts(present@), i as int));
                return Some(entry);
            }
            i += 1;
        }
        None
    }
}

/// The textures of the application, each with its file, in the order in
/// which they were declared. A shape names a texture by its position here.
#[derive(Clone, Debug, PartialEq, Eq)]
pub struct TextureBank {
    entries: Vec<TextureEntry>,
}

impl View for TextureBank {
    type V = Seq<TextureEntry>;

    closed spec fn view(&self) -> Seq<TextureEntry> {
        self.entries@
    }
}

impl TextureBank {
    /// Resolves every declared texture against the files that exist.
    ///
    /// Succeeds when each texture has a file; entry `i` of the bank is then
    /// texture `i` with the first of its candidate files that exists. Fails
    /// on the first texture, in declaration order, that has none, and names
    /// it.
    pub fn load(descriptors: &Vec<TextureDescriptor>, present: &Vec<String>) -> (bank: Result<
        TextureBank,
        TextureError,
    >)
        ensures
            bank is Ok <==> forall|i: int|
                0 <= i < descriptors@.len() ==> is_available(
                    (#[trigger] descriptors@[i]).name@,
                    descriptors@[i].encoding,
                    texts(present@),
                ),
            match bank {
                Ok(b) => {
                    &&& b@.len() == descriptors@.len()
                    &&& forall|i: int|
                        0 <= i < descriptors@.len() ==> resolves(
                            #[trigger] descriptors@[i],
                            texts(present@),
                            b@[i],
                        )
                },
                Err(TextureError::TextureNotFound { name }) => exists|i: int|
                    {
                        &&& 0 <= i < descriptors@.len()
                        &&& name@ == (#[trigger] descriptors@[i]).name@
                        &&& none_present(
                            candidates(descriptors@[i].name@, descriptors@[i].encoding),
                            texts(present@),
                        )
                        &&& forall|j: int|
                            0 <= j < i ==> is_available(
                                (#[trigger] descriptors@[j]).name@,
                                descriptors@[j].encoding,
                                texts(present@),
                            )
                    },
                Err(_) => false,
            },
    {
        let mut entries: Vec<TextureEntry> = Vec::new();
        let mut i: usize = 0;
        while i < descriptors.len()
            invariant
                i <= descriptors@.len(),
                entries@.len() == i,
                forall|j: int|
                    0 <= j < i ==> resolves(
                        #[trigger] descriptors@[j],
                        texts(present@),
                        entries@[j],
                    ),
            decreases descriptors@.len() - i,
        {
            match descriptors[i].locate(present) {
                Some(entry) => {
                    entries.push(entry);
                },
                None => {
                    let name = descriptors[i].name.clone();
                    assert forall|j: int| 0 <= j < i implies is_available(
                        (#[trigger] descriptors@[j]).name@,
                        descriptors@[j].encoding,
                        texts(present@),
                    ) by {
                        assert(resolves(descriptors@[j], texts(present@), entries@[j]));
                    }
                    assert(!is_available(
                        descriptors@[i as int].name@,
                        descriptors@[i as int].encoding,
                        texts(present@),
                    ));
                    return Err(TextureError::TextureNotFound { name });
                },
            }
            i += 1;
        }
        assert forall|j: int| 0 <= j < descriptors@.len() implies is_available(
            (#[trigger] descriptors@[j]).name@,
            descriptors@[j].encoding,
            texts(present@),
        ) by {
            assert(resolves(descriptors@[j], texts(present@), entries@[j]));
        }
        Ok(TextureBank { entries })
    }

    /// The number of textures.
    pub fn len(&self) -> (n: usize)
        ensures
            n == self@.len(),
    {
        self.entries.len()
    }

    /// The texture at `index`.
    pub fn entry(&self, index: usize) -> (entry: Option<&TextureEntry>)
        ensures
            index < self@.len() ==> entry == Some(&self@[index as int]),
            index >= self@.len() ==> entry is None,
    {
        if index < self.entries.len() {
            Some(&self.entries[index])
        } else {
            None
        }
    }
}

} // verus!
