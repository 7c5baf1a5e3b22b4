use crate::compression::{compression_from_suffix, suffix_of, Compression};
use crate::error::ParseError;
use crate::file_type::{
    dir_name_of, extension_of, file_type_from_extension, keyword_of, FileKeyword, FileType,
};
use crate::text::{
    lemma_split_join, lemma_split_nonempty, lemma_split_pieces, lemma_split_single, split_chars,
    split_on, views,
};
use vstd::prelude::*;

verus! {

/// The keyword values a key's name carries, at most one per keyword.
#[derive(Debug, Clone)]
pub struct FileKeywords {
    pub type_id: Option<String>,
    pub match_id: Option<String>,
    pub cluster_id: Option<String>,
    pub salt: Option<String>,
}

impl FileKeywords {
    pub open spec fn slot(&self, k: FileKeyword) -> Option<String> {
        match k {
            FileKeyword::Type => self.type_id,
            FileKeyword::MatchID => self.match_id,
            FileKeyword::ClusterID => self.cluster_id,
            FileKeyword::Salt => self.salt,
        }
    }

    /// The value stored for a keyword, if the name carried it.
    pub fn get(&self, k: FileKeyword) -> (r: Option<&String>)
        ensures
            r matches Some(v) ==> self@.contains_key(k) && self@[k] == v@,
            r is None ==> !self@.contains_key(k),
    {
        match k {
            FileKeyword::Type => self.type_id.as_ref(),
            FileKeyword::MatchID => self.match_id.as_ref(),
            FileKeyword::ClusterID => self.cluster_id.as_ref(),
            FileKeyword::Salt => self.salt.as_ref(),
        }
    }

    fn set(&mut self, k: FileKeyword, v: String)
        ensures
            final(self)@ == old(self)@.insert(k, v@),
    {
        match k {
            FileKeyword::Type => self.type_id = Some(v),
            FileKeyword::MatchID => self.match_id = Some(v),
            FileKeyword::ClusterID => self.cluster_id = Some(v),
            FileKeyword::Salt => self.salt = Some(v),
        }
        assert(final(self)@ =~= old(self)@.insert(k, v@));
    }
}

impl View for FileKeywords {
    type V = Map<FileKeyword, Seq<char>>;

    open spec fn view(&self) -> Map<FileKeyword, Seq<char>> {
        Map::new(|k: FileKeyword| self.slot(k) is Some, |k: FileKeyword| self.slot(k)->Some_0@)
    }
}

/// The keywords a `_`-separated list of tokens carries: each token's first
/// character is the code, the rest the value; a later token overrides an
/// earlier one with the same code, and tokens with no known code are dropped.
pub open spec fn keywords_of(tokens: Seq<Seq<char>>) -> Map<FileKeyword, Seq<char>>
    decreases tokens.len(),
{
    if tokens.len() == 0 {
        Map::empty()
    } else {
        let m = keywords_of(tokens.drop_last());
        let t = tokens.last();
        if t.len() > 0 && keyword_of(t[0]) is Some {
            m.insert(keyword_of(t[0])->Some_0, t.subrange(1, t.len() as int))
        } else {
            m
        }
    }
}

/// What a storage key says about the object it names.
pub ghost struct KeyModel {
    pub name: Seq<char>,
    pub file_type: FileType,
    pub compression: Compression,
    pub keywords: Map<FileKeyword, Seq<char>>,
}

/// The file name of a key: what follows its last `/`.
pub open spec fn file_name_of(path: Seq<char>) -> Seq<char> {
    split_on(path, '/').last()
}

/// The model of a key whose file name splits into `name`, `ext` and, where
/// given, a compression suffix.
pub open spec fn model_of(name: Seq<char>, t: FileType, c: Compression) -> KeyModel {
    KeyModel { name, file_type: t, compression: c, keywords: keywords_of(split_on(name, '_')) }
}

/// Decodes a storage key `<dirs>/<name>.<ext>[.<suffix>]`: two dot-separated
/// parts mean an uncompressed object, three name the codec; any other count,
/// or an empty file name, is `FilenameParse`; an unknown suffix or extension
/// is `UnknownVariant`.
pub open spec fn decode_key(path: Seq<char>) -> Result<KeyModel, ParseError> {
    let file = file_name_of(path);
    let parts = split_on(file, '.');
    if file.len() == 0 {
        Err(ParseError::FilenameParse)
    } else if parts.len() == 3 {
        match compression_from_suffix(parts[2]) {
            None => Err(ParseError::UnknownVariant),
            Some(c) => match file_type_from_extension(parts[1]) {
                None => Err(ParseError::UnknownVariant),
                Some(t) => Ok(model_of(parts[0], t, c)),
            },
        }
    } else if parts.len() == 2 {
        match file_type_from_extension(parts[1]) {
            None => Err(ParseError::UnknownVariant),
            Some(t) => Ok(model_of(parts[0], t, Compression::Uncompressed)),
        }
    } else {
        Err(ParseError::FilenameParse)
    }
}

/// The file name of a key: `<name>.<ext>`, followed by `.<suffix>` only for
/// a compressed object (no empty segment for an uncompressed one).
pub open spec fn key_name(name: Seq<char>, t: FileType, c: Compression) -> Seq<char> {
    if c == Compression::Uncompressed {
        name.push('.') + extension_of(t)
    } else {
        name.push('.') + extension_of(t) + seq!['.'] + suffix_of(c)
    }
}

/// `/<top>/<dir of t>/<key name>`.
pub open spec fn stage_path(top: Seq<char>, name: Seq<char>, t: FileType, c: Compression) -> Seq<
    char,
> {
    seq!['/'] + top + seq!['/'] + dir_name_of(t) + seq!['/'] + key_name(name, t, c)
}

/// Where an object that passed its stage is stored for the next one.
pub open spec fn parsed_path(name: Seq<char>, t: FileType, c: Compression) -> Seq<char> {
    stage_path(seq!['p', 'a', 'r', 's', 'e', 'd'], name, t, c)
}

/// Where an object that failed its stage is kept.
pub open spec fn failed_path(name: Seq<char>, t: FileType, c: Compression) -> Seq<char> {
    stage_path(seq!['f', 'a', 'i', 'l', 'e', 'd'], name, t, c)
}

/// A decoded storage key.
#[derive(Debug, Clone)]
pub struct FileData {
    /// The name part of the file name, before its first `.`.
    pub file_name: String,
    /// The whole key.
    pub file_path: String,
    pub file_type: FileType,
    pub compression: Compression,
    pub kwargs: FileKeywords,
}

impl FileData {
    pub open spec fn model(&self) -> KeyModel {
        KeyModel {
            name: self.file_name@,
            file_type: self.file_type,
            compression: self.compression,
            keywords: self.kwargs@,
        }
    }

    /// Decodes a storage key, or says why it is malformed.
    pub fn try_from(path: &str) -> (r: Result<FileData, ParseError>)
        ensures
            r matches Ok(f) ==> decode_key(path@) == Ok::<KeyModel, ParseError>(f.model())
                && f.file_path@ == path@,
            r matches Err(e) ==> decode_key(path@) == Err::<KeyModel, ParseError>(e),
    {
        let dirs = split_chars(path, '/');
        proof {
            lemma_split_nonempty(path@, '/');
        }
        let file = &dirs[dirs.len() - 1];
        assert(file@ == file_name_of(path@));
        if file.unicode_len() == 0 {
            return Err(ParseError::FilenameParse);
        }
        let parts = split_chars(file.as_str(), '.');
        assert(parts@.len() == split_on(file@, '.').len());
        let compression = if parts.len() == 3 {
            assert(parts@[2]@ == split_on(file@, '.')[2]);
            match Compression::from_suffix(parts[2].as_str()) {
                Ok(c) => c,
                Err(e) => return Err(e),
            }
        } else if parts.len() == 2 {
            Compression::Uncompressed
        } else {
            return Err(ParseError::FilenameParse);
        };
        assert(parts@[1]@ == split_on(file@, '.')[1]);
        let file_type = match FileType::from_extension(parts[1].as_str()) {
            Ok(t) => t,
            Err(e) => return Err(e),
        };
        let name = parts[0].clone();
        assert(name@ == split_on(file@, '.')[0]);
        let kwargs = keywords_from_name(name.as_str());
        let path_owned = String::from_str(path);
        Ok(FileData { file_name: name, file_path: path_owned, file_type, compression, kwargs })
    }
}

/// Collects the keywords of a key's name.
fn keywords_from_name(name: &str) -> (r: FileKeywords)
    ensures
        r@ == keywords_of(split_on(name@, '_')),
{
    let tokens = split_chars(name, '_');
    let mut kw = FileKeywords { type_id: None, match_id: None, cluster_id: None, salt: None };
    assert(kw@ =~= Map::<FileKeyword, Seq<char>>::empty());
    let mut i: usize = 0;
    assert(views(tokens@).subrange(0, 0) =~= Seq::<Seq<char>>::empty());
    while i < tokens.len()
        invariant
            views(tokens@) == split_on(name@, '_'),
            i <= tokens@.len(),
            kw@ == keywords_of(views(tokens@).subrange(0, i as int)),
        decreases tokens@.len() - i,
    {
        let ghost before = views(tokens@).subrange(0, i as int);
        let ghost after = views(tokens@).subrange(0, i + 1);
        assert(after.drop_last() =~= before);
        assert(after.last() == tokens@[i as int]@);
        let token = tokens[i].as_str();
        let len = token.unicode_len();
        if len > 0 {
            let code = token.get_char(0);
            match FileKeyword::from_code(code) {
                Some(k) => {
                    let value = String::from_str(token.substring_char(1, len));
                    kw.set(k, value);
                },
                None => {},
            }
        }
        i = i + 1;
    }
    assert(views(tokens@).subrange(0, tokens@.len() as int) =~= views(tokens@));
    kw
}

/// Builds `/<top>/<dir of t>/<key name>`.
fn build_stage_path(top: &str, file_name: &str, file_type: FileType, compression: Compression) -> (r: String)
    ensures
        r@ == seq!['/'] + top@ + seq!['/'] + dir_name_of(file_type) + seq!['/'] + key_name(
            file_name@,
            file_type,
            compression,
        ),
{
    proof {
        reveal_strlit("/");
        reveal_strlit(".");
        assert("/"@ =~= seq!['/']);
        assert("."@ =~= seq!['.']);
    }
    let mut p = String::from_str("/");
    p.append(top);
    p.append("/");
    p.append(file_type.dir_name());
    p.append("/");
    p.append(file_name);
    p.append(".");
    p.append(file_type.extension());
    if compression != Compression::Uncompressed {
        p.append(".");
        p.append(compression.suffix());
    }
    assert(p@ =~= seq!['/'] + top@ + seq!['/'] + dir_name_of(file_type) + seq!['/'] + key_name(
        file_name@,
        file_type,
        compression,
    ));
    p
}

/// The key under which an object that passed its stage is stored. A name
/// taken from a decoded key holds no `.`, and its key decodes back to it.
pub fn get_parsed_path(file_name: &str, file_type: FileType, compression: Compression) -> (r: String)
    ensures
        r@ == parsed_path(file_name@, file_type, compression),
{
    proof {
        reveal_strlit("parsed");
        assert("parsed"@ =~= seq!['p', 'a', 'r', 's', 'e', 'd']);
    }
    build_stage_path("parsed", file_name, file_type, compression)
}

/// The key under which an object that failed its stage is kept.
pub fn get_failed_path(file_name: &str, file_type: FileType, compression: Compression) -> (r: String)
    ensures
        r@ == failed_path(file_name@, file_type, compression),
{
    proof {
        reveal_strlit("failed");
        assert("failed"@ =~= seq!['f', 'a', 'i', 'l', 'e', 'd']);
    }
    build_stage_path("failed", file_name, file_type, compression)
}

proof fn lemma_free_of(s: Seq<char>, x: char)
    requires
        forall|i: int| 0 <= i < s.len() ==> s[i] != x,
    ensures
        !s.contains(x),
{
}

proof fn lemma_tags_plain(t: FileType, c: Compression)
    ensures
        !extension_of(t).contains('.'),
        !extension_of(t).contains('/'),
        !suffix_of(c).contains('.'),
        !suffix_of(c).contains('/'),
        file_type_from_extension(extension_of(t)) == Some(t),
        c != Compression::Uncompressed ==> compression_from_suffix(suffix_of(c)) == Some(c),
{
    lemma_free_of(extension_of(t), '.');
    lemma_free_of(extension_of(t), '/');
    lemma_free_of(suffix_of(c), '.');
    lemma_free_of(suffix_of(c), '/');
    assert(extension_of(FileType::Metadata) != extension_of(FileType::MetadataContent));
    assert(extension_of(FileType::Metadata) != extension_of(FileType::ActiveMatchesJsonLines));
    assert(extension_of(FileType::MetadataContent) != extension_of(
        FileType::ActiveMatchesJsonLines,
    ));
    assert(suffix_of(Compression::Bzip2) != suffix_of(Compression::Zstd));
}

proof fn lemma_concat_free(a: Seq<char>, b: Seq<char>, x: char)
    requires
        !a.contains(x),
        !b.contains(x),
    ensures
        !(a + b).contains(x),
{
    if (a + b).contains(x) {
        let j = choose|j: int| 0 <= j < (a + b).len() && (a + b)[j] == x;
        if j < a.len() {
            assert(a[j] == x);
        } else {
            assert(b[j - a.len()] == x);
        }
    }
}

/// Every key the decoder accepts is encoded back, by `key_name` under any
/// directories (`parsed_path` and `failed_path` among them), into a key that
/// decodes to the same name, type, compression and keywords; an uncompressed
/// key gets no compression segment.
pub proof fn lemma_key_round_trip(k: Seq<char>, dirs: Seq<char>)
    requires
        decode_key(k) is Ok,
    ensures
        ({
            let m = decode_key(k)->Ok_0;
            &&& decode_key(key_name(m.name, m.file_type, m.compression)) == Ok::<KeyModel, ParseError>(m)
            &&& decode_key(dirs.push('/') + key_name(m.name, m.file_type, m.compression))
                == Ok::<KeyModel, ParseError>(m)
            &&& decode_key(parsed_path(m.name, m.file_type, m.compression))
                == Ok::<KeyModel, ParseError>(m)
            &&& decode_key(failed_path(m.name, m.file_type, m.compression))
                == Ok::<KeyModel, ParseError>(m)
        }),
{
    let m = decode_key(k)->Ok_0;
    let file = file_name_of(k);
    let parts = split_on(file, '.');
    let (name, t, c) = (m.name, m.file_type, m.compression);
    lemma_split_nonempty(k, '/');
    lemma_split_pieces(k, '/', '/');
    assert(!file.contains('/'));
    lemma_split_pieces(file, '.', '.');
    lemma_split_pieces(file, '.', '/');
    assert(name == parts[0]);
    assert(!name.contains('.'));
    assert(!name.contains('/'));
    lemma_tags_plain(t, c);
    let ext = extension_of(t);
    let kn = key_name(name, t, c);
    lemma_split_single(name, '.');
    lemma_split_join(name, ext, '.');
    assert(!name.push('.').contains('/')) by {
        lemma_free_of(seq!['.'], '/');
        lemma_concat_free(name, seq!['.'], '/');
        assert(name + seq!['.'] =~= name.push('.'));
    }
    lemma_concat_free(name.push('.'), ext, '/');
    if c == Compression::Uncompressed {
        assert(split_on(kn, '.') == seq![name, ext]);
    } else {
        let head = name.push('.') + ext;
        lemma_split_join(head, suffix_of(c), '.');
        assert(kn =~= head.push('.') + suffix_of(c));
        assert(split_on(kn, '.') =~= seq![name, ext, suffix_of(c)]);
        assert(!head.push('.').contains('/')) by {
            lemma_free_of(seq!['.'], '/');
            lemma_concat_free(head, seq!['.'], '/');
            assert(head + seq!['.'] =~= head.push('.'));
        }
        lemma_concat_free(head.push('.'), suffix_of(c), '/');
    }
    assert(!kn.contains('/'));
    assert(kn.len() > 0) by {
        assert(kn[name.len() as int] == '.');
    }
    lemma_split_single(kn, '/');
    assert(file_name_of(kn) == kn);
    assert(decode_key(kn) == Ok::<KeyModel, ParseError>(m));
    lemma_split_join(dirs, kn, '/');
    assert(file_name_of(dirs.push('/') + kn) == kn);
    let pre_p = seq!['/'] + seq!['p', 'a', 'r', 's', 'e', 'd'] + seq!['/'] + dir_name_of(t);
    lemma_split_join(pre_p, kn, '/');
    assert(parsed_path(name, t, c) =~= pre_p.push('/') + kn);
    let pre_f = seq!['/'] + seq!['f', 'a', 'i', 'l', 'e', 'd'] + seq!['/'] + dir_name_of(t);
    lemma_split_join(pre_f, kn, '/');
    assert(failed_path(name, t, c) =~= pre_f.push('/') + kn);
}

} // verus!
