//! Albums: how an asset gets into the album of a name.

use vstd::prelude::*;

use crate::text::{concat3, str_eq};

verus! {

broadcast use vstd::seq::group_seq_axioms;

/// Where albums are listed and created.
pub const ALBUMS_PATH: &'static str = "/api/albums";

/// An album of the server.
#[derive(Debug)]
pub struct Album {
    pub id: String,
    pub album_name: String,
}

/// The first album of a name. Names need not be unique.
pub open spec fn album_named(v: Seq<Album>, name: Seq<char>) -> Option<Album>
    decreases v.len(),
{
    if v.len() == 0 {
        None
    } else if v[0].album_name@ == name {
        Some(v[0])
    } else {
        album_named(v.drop_first(), name)
    }
}

/// What to do, once the albums were listed, so that an asset gets into one.
#[derive(Debug)]
pub enum AlbumStep {
    /// Create an album of this name.
    Create { name: String },
    /// Add the asset to the album with this id.
    Add { album_id: String, asset_id: String },
}

/// The step after the albums were listed: the asset is added to the first album
/// of the name; where there is none, one is created.
pub fn after_list(albums: &Vec<Album>, album_name: &str, asset_id: &str) -> (r: AlbumStep)
    ensures
        match album_named(albums@, album_name@) {
            Some(a) => r matches AlbumStep::Add { album_id, asset_id: x } && album_id == a.id && x@
                == asset_id@,
            None => r matches AlbumStep::Create { name } && name@ == album_name@,
        },
{
    let mut i: usize = 0;
    assert(albums@.skip(0) =~= albums@);
    while i < albums.len()
        invariant
            i <= albums@.len(),
            album_named(albums@.skip(i as int), album_name@) == album_named(albums@, album_name@),
        decreases albums@.len() - i,
    {
        assert(albums@.skip(i as int)[0] == albums@[i as int]);
        assert(albums@.skip(i as int).drop_first() =~= albums@.skip(i + 1));
        if str_eq(&albums[i].album_name, album_name) {
            return AlbumStep::Add {
                album_id: albums[i].id.clone(),
                asset_id: asset_id.to_owned(),
            };
        }
        i += 1;
    }
    AlbumStep::Create { name: album_name.to_owned() }
}

/// The step after an album was created: the asset is added to it.
pub fn after_create(album: &Album, asset_id: &str) -> (r: AlbumStep)
    ensures
        r matches AlbumStep::Add { album_id, asset_id: x } && album_id == album.id && x@
            == asset_id@,
{
    AlbumStep::Add { album_id: album.id.clone(), asset_id: asset_id.to_owned() }
}

/// Where assets are added to an album.
pub fn assets_path(album_id: &str) -> (r: String)
    ensures
        r@ == "/api/albums/"@ + album_id@ + "/assets"@,
{
    concat3("/api/albums/", album_id, "/assets")
}

/// Whether the server is asked to add these assets at all.
pub fn add_assets_to_album(asset_ids: &Vec<String>) -> (r: bool)
    ensures
        r == (asset_ids@.len() > 0),
{
    asset_ids.len() > 0
}

/// An asset that is added to an album of a name goes to an album of that name.
pub proof fn law_asset_goes_to_the_named_album(v: Seq<Album>, name: Seq<char>)
    ensures
        album_named(v, name) matches Some(a) ==> a.album_name@ == name && v.contains(a),
        album_named(v, name) is None ==> forall|i: int|
            0 <= i < v.len() ==> (#[trigger] v[i]).album_name@ != name,
    decreases v.len(),
{
    if v.len() > 0 {
        if v[0].album_name@ != name {
            let rest = v.drop_first();
            law_asset_goes_to_the_named_album(rest, name);
            if album_named(v, name) is Some {
                let a = album_named(v, name)->0;
                let k = choose|k: int| 0 <= k < rest.len() && rest[k] == a;
                assert(v[k + 1] == a);
            } else {
                assert forall|i: int| 0 <= i < v.len() implies (#[trigger] v[i]).album_name@
                    != name by {
                    if i > 0 {
                        assert(rest[i - 1] == v[i]);
                    }
                }
            }
        } else {
            assert(v.contains(v[0]));
        }
    }
}

/// Where several albums have the name, the first of them counts.
pub proof fn law_first_album_of_the_name_counts(v: Seq<Album>, name: Seq<char>, k: int)
    requires
        0 <= k < v.len(),
        v[k].album_name@ == name,
        forall|i: int| 0 <= i < k ==> (#[trigger] v[i]).album_name@ != name,
    ensures
        album_named(v, name) == Some(v[k]),
    decreases v.len(),
{
    if k > 0 {
        let d = v.drop_first();
        assert(v[0].album_name@ != name);
        assert forall|i: int| 0 <= i < k - 1 implies (#[trigger] d[i]).album_name@ != name by {
            assert(d[i] == v[i + 1]);
        }
        law_first_album_of_the_name_counts(d, name, k - 1);
    }
}

} // verus!
