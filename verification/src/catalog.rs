use vstd::prelude::*;

verus! {

/// One row of the read-only `movies` table. The two popularity figures are
/// carried as the IEEE 754 bit patterns of the stored doubles: the catalog
/// never computes with them, it only passes them through.
pub struct Movie {
    pub id: i32,
    pub adult: bool,
    pub backdrop_path: Option<String>,
    pub genre_ids: String,
    pub origin_country: String,
    pub original_language: Option<String>,
    pub original_name: Option<String>,
    pub original_title: Option<String>,
    pub overview: Option<String>,
    pub popularity_bits: u64,
    pub poster_path: Option<String>,
    pub first_air_date: Option<String>,
    pub release_date: Option<String>,
    pub name: Option<String>,
    pub title: Option<String>,
    pub video: bool,
    pub vote_average_bits: u64,
    pub vote_count: i32,
}

/// The fixed CDN base that relative image paths are resolved against.
pub open spec fn image_base_url() -> Seq<char> {
    "https://image.tmdb.org/t/p/original"@
}

/// An image path as the response carries it: absent stays absent, a stored
/// relative path gets the CDN base glued in front.
pub open spec fn spec_rewrite_path(p: Option<Seq<char>>) -> Option<Seq<char>> {
    match p {
        Option::None => Option::None,
        Option::Some(s) => Option::Some(image_base_url() + s),
    }
}

/// How a response row relates to a stored row: the two image paths are
/// rewritten, every other field is carried through unchanged.
pub open spec fn movie_rewritten(m: Movie, r: Movie) -> bool {
    &&& r.id == m.id
    &&& r.adult == m.adult
    &&& r.backdrop_path.deep_view() == spec_rewrite_path(m.backdrop_path.deep_view())
    &&& r.genre_ids == m.genre_ids
    &&& r.origin_country == m.origin_country
    &&& r.original_language == m.original_language
    &&& r.original_name == m.original_name
    &&& r.original_title == m.original_title
    &&& r.overview == m.overview
    &&& r.popularity_bits == m.popularity_bits
    &&& r.poster_path.deep_view() == spec_rewrite_path(m.poster_path.deep_view())
    &&& r.first_air_date == m.first_air_date
    &&& r.release_date == m.release_date
    &&& r.name == m.name
    &&& r.title == m.title
    &&& r.video == m.video
    &&& r.vote_average_bits == m.vote_average_bits
    &&& r.vote_count == m.vote_count
}

/// Rewrites one optional image path: `None` stays `None`, `Some(p)` becomes
/// the CDN base followed by `p`.
pub fn rewrite_path(path: Option<String>) -> (r: Option<String>)
    ensures
        r.deep_view() == spec_rewrite_path(path.deep_view()),
{
    match path {
        None => None,
        Some(p) => Some(String::from_str("https://image.tmdb.org/t/p/original").concat(p.as_str())),
    }
}

/// Rewrites the two image paths of one row and carries the rest through.
pub fn rewrite_movie(m: Movie) -> (r: Movie)
    ensures
        movie_rewritten(m, r),
{
    let Movie {
        id,
        adult,
        backdrop_path,
        genre_ids,
        origin_country,
        original_language,
        original_name,
        original_title,
        overview,
        popularity_bits,
        poster_path,
        first_air_date,
        release_date,
        name,
        title,
        video,
        vote_average_bits,
        vote_count,
    } = m;
    Movie {
        backdrop_path: rewrite_path(backdrop_path),
        poster_path: rewrite_path(poster_path),
        id,
        adult,
        genre_ids,
        origin_country,
        original_language,
        original_name,
        original_title,
        overview,
        popularity_bits,
        first_air_date,
        release_date,
        name,
        title,
        video,
        vote_average_bits,
        vote_count,
    }
}

/// The catalog listing: always status 200 with one response row per stored
/// row, in order. An empty catalog yields an empty array.
pub struct CatalogResponse {
    pub code: u16,
    pub movies: Vec<Movie>,
}

/// `GET /movies` after the rows have been fetched: rewrites every row's
/// image paths and wraps the list in a 200 reply.
pub fn get_movies(movies: Vec<Movie>) -> (r: CatalogResponse)
    ensures
        r.code == 200,
        r.movies@.len() == movies@.len(),
        forall|i: int|
            0 <= i < movies@.len() ==> movie_rewritten(movies@[i], #[trigger] r.movies@[i]),
{
    let mut input = movies;
    let ghost orig = input@;
    let mut out: Vec<Movie> = Vec::new();
    while input.len() > 0
        invariant
            out@.len() + input@.len() == orig.len(),
            input@ == orig.subrange(out@.len() as int, orig.len() as int),
            forall|i: int| 0 <= i < out@.len() ==> movie_rewritten(orig[i], #[trigger] out@[i]),
        decreases input@.len(),
    {
        let ghost k = out@.len() as int;
        let m = input.remove(0);
        proof {
            assert(m == orig[k]);
        }
        out.push(rewrite_movie(m));
        proof {
            assert(input@ =~= orig.subrange(k + 1, orig.len() as int));
        }
    }
    CatalogResponse { code: 200, movies: out }
}

} // verus!
