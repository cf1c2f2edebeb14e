use movie_catalog::catalog::{get_movies, rewrite_path, Movie};

fn sample_movie() -> Movie {
    Movie {
        id: 42,
        adult: false,
        backdrop_path: Some("/abc.jpg".to_string()),
        genre_ids: "18,80".to_string(),
        origin_country: "ID".to_string(),
        original_language: Some("id".to_string()),
        original_name: None,
        original_title: Some("Film".to_string()),
        overview: Some("Sebuah film.".to_string()),
        popularity_bits: 8.8f64.to_bits(),
        poster_path: Some("/poster.png".to_string()),
        first_air_date: None,
        release_date: Some("2020-01-01".to_string()),
        name: None,
        title: Some("Film".to_string()),
        video: false,
        vote_average_bits: 7.25f64.to_bits(),
        vote_count: 1234,
    }
}

#[test]
fn empty_catalog_yields_empty_array() {
    let r = get_movies(Vec::new());
    assert_eq!(r.code, 200);
    assert!(r.movies.is_empty());
}

#[test]
fn backdrop_path_gets_base_url() {
    let r = get_movies(vec![sample_movie()]);
    assert_eq!(r.code, 200);
    assert_eq!(r.movies.len(), 1);
    let m = &r.movies[0];
    assert_eq!(
        m.backdrop_path.as_deref(),
        Some("https://image.tmdb.org/t/p/original/abc.jpg")
    );
    assert_eq!(
        m.poster_path.as_deref(),
        Some("https://image.tmdb.org/t/p/original/poster.png")
    );
}

#[test]
fn absent_path_stays_absent() {
    let mut movie = sample_movie();
    movie.backdrop_path = None;
    movie.poster_path = None;
    let r = get_movies(vec![movie]);
    let m = &r.movies[0];
    assert_eq!(m.backdrop_path, None);
    assert_eq!(m.poster_path, None);
}

#[test]
fn other_fields_pass_through_unchanged() {
    let r = get_movies(vec![sample_movie()]);
    let m = &r.movies[0];
    let orig = sample_movie();
    assert_eq!(m.id, orig.id);
    assert_eq!(m.adult, orig.adult);
    assert_eq!(m.genre_ids, orig.genre_ids);
    assert_eq!(m.origin_country, orig.origin_country);
    assert_eq!(m.original_language, orig.original_language);
    assert_eq!(m.original_name, orig.original_name);
    assert_eq!(m.original_title, orig.original_title);
    assert_eq!(m.overview, orig.overview);
    assert_eq!(f64::from_bits(m.popularity_bits), 8.8);
    assert_eq!(m.first_air_date, orig.first_air_date);
    assert_eq!(m.release_date, orig.release_date);
    assert_eq!(m.name, orig.name);
    assert_eq!(m.title, orig.title);
    assert_eq!(m.video, orig.video);
    assert_eq!(f64::from_bits(m.vote_average_bits), 7.25);
    assert_eq!(m.vote_count, orig.vote_count);
}

#[test]
fn catalog_keeps_order_and_length() {
    let mut first = sample_movie();
    first.id = 1;
    first.backdrop_path = Some("/one.jpg".to_string());
    let mut second = sample_movie();
    second.id = 2;
    second.backdrop_path = None;
    let r = get_movies(vec![first, second]);
    assert_eq!(r.movies.len(), 2);
    assert_eq!(r.movies[0].id, 1);
    assert_eq!(
        r.movies[0].backdrop_path.as_deref(),
        Some("https://image.tmdb.org/t/p/original/one.jpg")
    );
    assert_eq!(r.movies[1].id, 2);
    assert_eq!(r.movies[1].backdrop_path, None);
}

#[test]
fn rewrite_path_handles_both_cases() {
    assert_eq!(rewrite_path(None), None);
    assert_eq!(
        rewrite_path(Some("/x".to_string())).as_deref(),
        Some("https://image.tmdb.org/t/p/original/x")
    );
}
