//! The save-image loader: classify an input file by its name's extension
//! and produce the raw save-memory image the emulation core loads, either
//! verbatim or by decompressing a single-song container around it.

use vstd::prelude::*;

verus! {

/// What an input file holds, told apart by its name's extension alone; no
/// content sniffing is performed.
#[derive(Clone, Copy, PartialEq, Eq, Structural, Debug)]
pub enum SaveKind {
    /// A raw save-memory image, consumable verbatim by the emulation core.
    RawSave,
    /// A compressed single-song container that must first be decompressed
    /// and wrapped into a raw save image.
    CompressedSong,
}

/// Why an input could not be turned into a raw save image.  Every error is
/// fatal: a partially loaded save is unsafe to run.
#[derive(Clone, Copy, PartialEq, Eq, Structural, Debug)]
pub enum SaveError {
    /// The input file's name carries neither recognized extension.
    UnrecognizedExtension,
    /// The compressed container could not be parsed or decompressed.
    MalformedContainer,
}

/// The extension marking a raw save-memory image: ".sav".
pub open spec fn sav_suffix() -> Seq<u8> {
    seq![46u8, 115u8, 97u8, 118u8]
}

/// The extension marking a compressed single-song container: ".lsdsng".
pub open spec fn lsdsng_suffix() -> Seq<u8> {
    seq![46u8, 108u8, 115u8, 100u8, 115u8, 110u8, 103u8]
}

/// Does `name` end in `suffix`?
pub open spec fn has_suffix(name: Seq<u8>, suffix: Seq<u8>) -> bool {
    name.len() >= suffix.len() && name.skip(name.len() - suffix.len()) == suffix
}

/// How an input file name is classified: a recognized extension names the
/// save kind, anything else is rejected outright.
pub open spec fn classified(name: Seq<u8>) -> Result<SaveKind, SaveError> {
    if has_suffix(name, sav_suffix()) {
        Ok(SaveKind::RawSave)
    } else if has_suffix(name, lsdsng_suffix()) {
        Ok(SaveKind::CompressedSong)
    } else {
        Err(SaveError::UnrecognizedExtension)
    }
}

fn ends_with(name: &Vec<u8>, suffix: &Vec<u8>) -> (r: bool)
    ensures
        r == has_suffix(name@, suffix@),
{
    if name.len() < suffix.len() {
        return false;
    }
    let nlen = name.len();
    let off = nlen - suffix.len();
    let mut j: usize = 0;
    while j < suffix.len()
        invariant
            j <= suffix@.len(),
            suffix@.len() <= name@.len(),
            nlen == name@.len(),
            off == name@.len() - suffix@.len(),
            forall|t: int| 0 <= t < j ==> name@[off + t] == suffix@[t],
        decreases suffix@.len() - j,
    {
        assert(off + j < name@.len());
        if name[off + j] != suffix[j] {
            proof {
                assert(name@.skip(off as int)[j as int] == name@[off + j]);
            }
            return false;
        }
        j = j + 1;
    }
    proof {
        assert(name@.skip(off as int) =~= suffix@);
    }
    true
}

fn sav_suffix_bytes() -> (v: Vec<u8>)
    ensures
        v@ == sav_suffix(),
{
    let mut v: Vec<u8> = Vec::new();
    v.push(46);
    v.push(115);
    v.push(97);
    v.push(118);
    proof {
        assert(v@ =~= sav_suffix());
    }
    v
}

fn lsdsng_suffix_bytes() -> (v: Vec<u8>)
    ensures
        v@ == lsdsng_suffix(),
{
    let mut v: Vec<u8> = Vec::new();
    v.push(46);
    v.push(108);
    v.push(115);
    v.push(100);
    v.push(115);
    v.push(110);
    v.push(103);
    proof {
        assert(v@ =~= lsdsng_suffix());
    }
    v
}

/// Classify an input file by the bytes of its name.  A name with an
/// unrecognized extension is rejected here, before any emulation has begun
/// and before any output file exists.
pub fn classify(name: &Vec<u8>) -> (r: Result<SaveKind, SaveError>)
    ensures
        r == classified(name@),
{
    if ends_with(name, &sav_suffix_bytes()) {
        Ok(SaveKind::RawSave)
    } else if ends_with(name, &lsdsng_suffix_bytes()) {
        Ok(SaveKind::CompressedSong)
    } else {
        Err(SaveError::UnrecognizedExtension)
    }
}

/// Length in bytes of a raw save-memory image: one song in working memory
/// followed by a 0x18000-byte filesystem.
pub const SAVE_IMAGE_LEN: usize = 131072;

/// Length in bytes of one uncompressed song memory image.
pub const SONG_LEN: usize = 32768;

/// Length in bytes of one compression block of a container's song data.
pub const BLOCK_LEN: usize = 512;

/// Whether the container's leading name and version bytes parse: at least
/// nine bytes, the first eight a valid null-terminated song name.
pub uninterp spec fn container_parses(bytes: Seq<u8>) -> bool;

/// What decompressing one block of a container's song data yields, reading
/// the block data from byte offset `index` times BLOCK_LEN: `None` when the
/// read runs past the end of the data, otherwise the plain bytes produced
/// and whether this block ended the song (as opposed to continuing into the
/// next block).
pub uninterp spec fn block_step(blocks: Seq<u8>, index: nat) -> Option<(Seq<u8>, bool)>;

/// The raw save image built around a song memory image: the song in the
/// working-memory slot, followed by a freshly initialized filesystem.
pub uninterp spec fn image_of_song(song: Seq<u8>) -> Seq<u8>;

/// A song memory image's initialization check: one of its three marker
/// positions must hold the marker bytes 0x72, 0x62.
pub open spec fn song_check(song: Seq<u8>) -> bool {
    ||| (song[0x1E78] == 0x72 && song[0x1E79] == 0x62)
    ||| (song[0x3E80] == 0x72 && song[0x3E81] == 0x62)
    ||| (song[0x7FF0] == 0x72 && song[0x7FF1] == 0x62)
}

/// The song data a container's block data inflates to, decompressing block
/// after block in storage order from `index`, with `acc` already produced,
/// until one block ends the song.  A read past the end of the data makes
/// the container malformed, as does needing more than `fuel` further
/// blocks — more than the data could hold.
pub open spec fn decoded_from(blocks: Seq<u8>, index: nat, acc: Seq<u8>, fuel: nat) -> Option<
    Seq<u8>,
>
    decreases fuel,
{
    match block_step(blocks, index) {
        None => None,
        Some(step) => if step.1 {
            Some(acc + step.0)
        } else if fuel == 0 {
            None
        } else {
            decoded_from(blocks, index + 1, acc + step.0, (fuel - 1) as nat)
        },
    }
}

/// The song memory image inside a compressed container, if the container
/// parses and its block data inflates to a song.
pub open spec fn container_song(bytes: Seq<u8>) -> Option<Seq<u8>> {
    if container_parses(bytes) {
        decoded_from(bytes.skip(9), 0, Seq::empty(), bytes.skip(9).len() / 512 + 1)
    } else {
        None
    }
}

/// When a compressed container yields a raw save image: it parses, its
/// block data inflates to exactly one song memory image, and that image
/// passes the initialization check.
pub open spec fn container_ok(bytes: Seq<u8>) -> bool {
    &&& container_song(bytes) is Some
    &&& container_song(bytes)->Some_0.len() == SONG_LEN
    &&& song_check(container_song(bytes)->Some_0)
}

/// The raw save image a well-formed compressed container yields.
pub open spec fn container_image(bytes: Seq<u8>) -> Seq<u8> {
    image_of_song(container_song(bytes)->Some_0)
}

/// Relies on lsdj's LsdSng::from_reader: a container parses when it holds
/// at least eight name bytes (a valid null-terminated song name) and one
/// version byte; its compressed block data is everything after those nine.
#[verifier::external_body]
fn container_blocks(bytes: &Vec<u8>) -> (r: Result<Vec<u8>, SaveError>)
    ensures
        r is Ok <==> container_parses(bytes@),
        r is Ok ==> bytes@.len() >= 9 && r->Ok_0@ == bytes@.skip(9),
        r is Err ==> r->Err_0 == SaveError::MalformedContainer,
{
    match lsdj::lsdsng::LsdSng::from_reader(std::io::Cursor::new(bytes.as_slice())) {
        Ok(_) => Ok(bytes[9..].to_vec()),
        Err(_) => Err(SaveError::MalformedContainer),
    }
}

/// Relies on lsdj's decompress_block: reading the block data from byte
/// offset `index` times BLOCK_LEN, it inflates run-length and
/// default-pattern commands into plain bytes until a block-jump command
/// (the song continues in the next stored block; this container format
/// ignores the jump's target) or an end-of-file command (the song is
/// complete).  A read past the end of the data is its only failure, and
/// what it produces is a function of the block data and the index alone.
#[verifier::external_body]
fn decompress_block_at(blocks: &Vec<u8>, index: usize, out: &mut Vec<u8>) -> (r: Result<
    bool,
    SaveError,
>)
    ensures
        r matches Ok(ended) ==> block_step(blocks@, index as nat) matches Some(step)
            && final(out)@ == old(out)@ + step.0 && ended == step.1,
        r is Err ==> block_step(blocks@, index as nat) is None && final(out)@ == old(out)@
            && r->Err_0 == SaveError::MalformedContainer,
{
    let mut reader = std::io::Cursor::new(blocks.as_slice());
    reader.set_position((index as u64).saturating_mul(512));
    let mut inflated = std::io::Cursor::new(Vec::new());
    match lsdj::serde::decompress_block(&mut reader, &mut inflated) {
        Ok(end) => {
            out.extend_from_slice(inflated.get_ref());
            Ok(matches!(end, lsdj::serde::End::EndOfFile))
        }
        Err(_) => Err(SaveError::MalformedContainer),
    }
}

/// Relies on lsdj's SongMemory::from_reader, SRam::new and SRam::to_writer:
/// a SONG_LEN-byte song image is accepted exactly when one of its three
/// initialization-check positions holds the marker bytes; the raw save
/// image is then that song in the working-memory slot followed by a
/// freshly initialized filesystem, SAVE_IMAGE_LEN bytes in all and a
/// function of the song bytes alone.  Writing into a byte vector cannot
/// fail.
#[verifier::external_body]
fn image_from_song_bytes(song: &Vec<u8>) -> (r: Result<Vec<u8>, SaveError>)
    requires
        song@.len() == SONG_LEN,
    ensures
        r is Ok <==> song_check(song@),
        r is Ok ==> r->Ok_0@ == image_of_song(song@) && r->Ok_0@.len() == SAVE_IMAGE_LEN,
        r is Err ==> r->Err_0 == SaveError::MalformedContainer,
{
    let memory = match lsdj::song::SongMemory::from_reader(std::io::Cursor::new(song.as_slice())) {
        Ok(memory) => memory,
        Err(_) => return Err(SaveError::MalformedContainer),
    };
    let mut sram = lsdj::sram::SRam::new();
    sram.working_memory_song = memory;
    let mut out: Vec<u8> = Vec::new();
    sram.to_writer(&mut out).expect("writing into a byte vector cannot fail");
    Ok(out)
}

/// Decompress a single-song container into a freshly constructed raw save
/// image holding that one song in its working-memory slot.  Succeeds for
/// exactly the well-formed containers; a short or overlong song, a bad
/// name, truncated block data or a failed initialization check is a
/// malformed container.
pub fn save_image_from_container(bytes: &Vec<u8>) -> (r: Result<Vec<u8>, SaveError>)
    ensures
        r is Ok <==> container_ok(bytes@),
        r is Ok ==> r->Ok_0@ == container_image(bytes@) && r->Ok_0@.len() == SAVE_IMAGE_LEN,
        r is Err ==> r->Err_0 == SaveError::MalformedContainer,
{
    let blocks = match container_blocks(bytes) {
        Ok(blocks) => blocks,
        Err(e) => {
            return Err(e);
        },
    };
    let ghost total = (blocks@.len() / 512 + 1) as nat;
    proof {
        assert(blocks@ == bytes@.skip(9));
        assert(container_song(bytes@) == decoded_from(blocks@, 0, Seq::empty(), total));
    }
    let mut song: Vec<u8> = Vec::new();
    let mut idx: usize = 0;
    let mut fuel: usize = blocks.len() / 512 + 1;
    let mut running: usize = 1;
    while running == 1
        invariant
            running <= 1,
            total == blocks@.len() / 512 + 1,
            idx + fuel <= usize::MAX,
            running == 1 ==> decoded_from(blocks@, 0, Seq::empty(), total) == decoded_from(
                blocks@,
                idx as nat,
                song@,
                fuel as nat,
            ),
            running == 0 ==> decoded_from(blocks@, 0, Seq::empty(), total) == Some(song@),
            container_song(bytes@) == decoded_from(blocks@, 0, Seq::empty(), total),
        decreases fuel + running,
    {
        let ghost pre = song@;
        match decompress_block_at(&blocks, idx, &mut song) {
            Err(e) => {
                proof {
                    assert(decoded_from(blocks@, idx as nat, pre, fuel as nat) is None);
                }
                return Err(e);
            },
            Ok(true) => {
                proof {
                    assert(decoded_from(blocks@, idx as nat, pre, fuel as nat) == Some(song@));
                }
                running = 0;
            },
            Ok(false) => {
                if fuel == 0 {
                    proof {
                        assert(decoded_from(blocks@, idx as nat, pre, fuel as nat) is None);
                    }
                    return Err(SaveError::MalformedContainer);
                }
                proof {
                    assert(decoded_from(blocks@, idx as nat, pre, fuel as nat) == decoded_from(
                        blocks@,
                        idx as nat + 1,
                        song@,
                        (fuel - 1) as nat,
                    ));
                }
                fuel = fuel - 1;
                idx = idx + 1;
            },
        }
    }
    if song.len() != SONG_LEN {
        return Err(SaveError::MalformedContainer);
    }
    image_from_song_bytes(&song)
}

/// Produce the raw save-memory image for a classified input: a raw save
/// image is taken verbatim, byte for byte; a compressed container is
/// decompressed and wrapped into a fresh image, succeeding for exactly the
/// well-formed containers.
pub fn build_save_image(kind: &SaveKind, bytes: Vec<u8>) -> (r: Result<Vec<u8>, SaveError>)
    ensures
        *kind == SaveKind::RawSave ==> r is Ok && r->Ok_0@ == bytes@,
        *kind == SaveKind::CompressedSong ==> {
            &&& (r is Ok <==> container_ok(bytes@))
            &&& (r is Ok ==> r->Ok_0@ == container_image(bytes@) && r->Ok_0@.len()
                == SAVE_IMAGE_LEN)
            &&& (r is Err ==> r->Err_0 == SaveError::MalformedContainer)
        },
{
    match kind {
        SaveKind::RawSave => Ok(bytes),
        SaveKind::CompressedSong => save_image_from_container(&bytes),
    }
}

} // verus!
