use clemen::clock::{Date, Moment};
use clemen::command::{
    chart_found, forward_songs, handle_command, handle_command_at, listener_found, movies_found,
    weeks_found, Call, Chart, Command, Entry, Listener, Movie, Reaction, Step, Target, User, Week,
};
use clemen::data::{Data, Upload};

const CHAT: i64 = -77;

fn user(id: u64, first: &str, last: Option<&str>) -> User {
    User { id, first_name: first.to_string(), last_name: last.map(|s| s.to_string()) }
}

fn call(from: Option<User>) -> Call {
    Call { chat: CHAT, from }
}

fn ana() -> Call {
    call(Some(user(1, "Ana", Some("Paz"))))
}

fn beto() -> Call {
    call(Some(user(2, "Beto", None)))
}

fn organiser() -> Call {
    call(Some(user(Data::VOTE_USER, "Queso", None)))
}

fn moment(day: i64) -> Moment {
    Moment::new(day * 86_400, 0, 0).unwrap()
}

fn run(data: &mut Data, call: &Call, command: Command) -> Reaction {
    handle_command_at(data, call, command, &moment(100), &moment(100))
}

fn said(step: Step) -> String {
    match step {
        Step::Say { to, text, html } => {
            assert_eq!(to, Target::Chat(CHAT));
            assert!(!html);
            text
        }
        other => panic!("{:?}", other),
    }
}

fn said_html(step: Step) -> String {
    match step {
        Step::Say { to, text, html } => {
            assert_eq!(to, Target::Chat(CHAT));
            assert!(html);
            text
        }
        other => panic!("{:?}", other),
    }
}

fn text(s: &str) -> String {
    s.to_string()
}

#[test]
fn full_names_join_with_a_space() {
    assert_eq!(user(1, "First", Some("Last")).full_name(), "First Last");
    assert_eq!(user(1, ".", None).full_name(), ".");
}

#[test]
fn a_film_is_proposed() {
    let mut data = Data::default();
    let reaction = run(&mut data, &ana(), Command::Proponer(text("Heat")));
    assert!(reaction.save);
    assert_eq!(said(reaction.step), "Lo anotubi");
    assert_eq!(data.queue.len(), 1);
    assert_eq!(data.queue[0].name, "Heat");
    assert_eq!(data.queue[0].user, "Ana Paz");
}

#[test]
fn a_film_that_is_queued_is_turned_down() {
    let mut data = Data::default();
    run(&mut data, &ana(), Command::Proponer(text("Heat")));
    let reaction = run(&mut data, &beto(), Command::Proponer(text(" HEAT")));
    assert!(!reaction.save);
    assert_eq!(said(reaction.step), "Ya está en la cola, me estás gargando");
    assert_eq!(data.queue.len(), 1);
}

#[test]
fn a_film_needs_a_name() {
    let mut data = Data::default();
    let reaction = run(&mut data, &ana(), Command::Proponer(text("")));
    assert!(!reaction.save);
    assert_eq!(
        said(reaction.step),
        "Tenés que dar el nombre de la película. Ejemplo: /proponer@clemen_dc_bot Rocky Horror Picture Show"
    );
    let reaction = run(&mut data, &ana(), Command::Desproponer(text("")));
    assert_eq!(
        said(reaction.step),
        "Tenés que dar el nombre de la película. Ejemplo: /desproponer@clemen_dc_bot Rocky Horror Picture Show"
    );
    let reaction = run(&mut data, &ana(), Command::Sinopsis(text("")));
    assert_eq!(
        said(reaction.step),
        "Tenés que dar el nombre de la película. Ejemplo: /sinopsis@clemen_dc_bot Rocky Horror Picture Show"
    );
    assert!(data.queue.is_empty());
}

#[test]
fn the_queue_takes_twelve_films() {
    let mut data = Data::default();
    for i in 0..12 {
        let reaction = run(&mut data, &ana(), Command::Proponer(format!("film {}", i)));
        assert!(reaction.save);
    }
    let reaction = run(&mut data, &ana(), Command::Proponer(text("one more")));
    assert!(!reaction.save);
    assert_eq!(
        said(reaction.step),
        "Telegram tiene un límite de 12 opciones por encuesta...don't hate the player hate the game"
    );
    assert_eq!(data.queue.len(), 12);
}

#[test]
fn without_a_sender_nothing_happens() {
    let mut data = Data::default();
    data.add(text("Heat"), text("Ana Paz"));
    data.music.push(Upload::at(1, moment(0)));
    let nobody = call(None);
    for command in [
        Command::Proponer(text("Up")),
        Command::Desproponer(text("Heat")),
        Command::Votar,
        Command::Dia,
        Command::Semana,
        Command::Mes,
    ] {
        let reaction = run(&mut data, &nobody, command);
        assert!(!reaction.save);
        assert!(matches!(reaction.step, Step::Done));
    }
    assert_eq!(data.queue.len(), 1);
    assert_eq!(data.music.len(), 1);
}

#[test]
fn a_proposal_is_taken_back() {
    let mut data = Data::default();
    run(&mut data, &ana(), Command::Proponer(text("Heat")));
    let reaction = run(&mut data, &beto(), Command::Desproponer(text("Heat")));
    assert!(!reaction.save);
    assert_eq!(
        said(reaction.step),
        "Me estás gargando...no propusiste esa película vos. 🍅la de acá"
    );
    let reaction = run(&mut data, &ana(), Command::Desproponer(text("heat")));
    assert!(!reaction.save);
    assert!(matches!(reaction.step, Step::Done));
    let reaction = run(&mut data, &ana(), Command::Desproponer(text("Heat")));
    assert!(reaction.save);
    assert_eq!(said(reaction.step), "Lo desanotubi");
    assert!(data.queue.is_empty());
}

#[test]
fn the_queue_is_listed() {
    let mut data = Data::default();
    let reaction = run(&mut data, &call(None), Command::Cola);
    assert_eq!(said(reaction.step), "La cola está vacía.");
    run(&mut data, &ana(), Command::Proponer(text("Heat")));
    run(&mut data, &beto(), Command::Proponer(text("Up")));
    let reaction = run(&mut data, &call(None), Command::Cola);
    assert!(!reaction.save);
    assert_eq!(
        said(reaction.step),
        "• Heat, propuesta por Ana Paz\n• Up, propuesta por Beto\n"
    );
    assert_eq!(data.queue.len(), 2);
}

#[test]
fn the_organiser_calls_the_vote() {
    let mut data = Data::default();
    run(&mut data, &ana(), Command::Proponer(text("Heat")));
    run(&mut data, &beto(), Command::Proponer(text("Up")));
    let reaction = run(&mut data, &ana(), Command::Votar);
    assert!(!reaction.save);
    assert_eq!(said(reaction.step), "Únicamente Queso puede utilizar este comando.");
    assert_eq!(data.queue.len(), 2);
    let reaction = run(&mut data, &organiser(), Command::Votar);
    assert!(reaction.save);
    match reaction.step {
        Step::Poll { to, question, options, anonymous, multiple } => {
            assert!(!anonymous);
            assert!(multiple);
            assert_eq!(to, Target::Chat(CHAT));
            assert_eq!(question, "Vota la próxima película!");
            assert_eq!(options, vec!["Heat", "Up"]);
        }
        other => panic!("{:?}", other),
    }
    assert!(data.queue.is_empty());
    let reaction = run(&mut data, &organiser(), Command::Votar);
    assert!(reaction.save);
    assert_eq!(said(reaction.step), "La cola está vacía.");
}

fn forwarded(step: Step) -> Vec<i32> {
    match step {
        Step::Forward { to, from, messages } => {
            assert_eq!(to, Target::User(1));
            assert_eq!(from, Data::CHANNEL_MUSIC);
            messages
        }
        other => panic!("{:?}", other),
    }
}

#[test]
fn songs_are_forwarded() {
    let mut data = Data::default();
    for day in [60, 71, 94, 99, 100] {
        data.music.push(Upload::at(day as i32, moment(day)));
    }
    let reaction = run(&mut data, &ana(), Command::Dia);
    assert!(!reaction.save);
    assert_eq!(forwarded(reaction.step), vec![100]);
    let reaction = run(&mut data, &ana(), Command::Semana);
    assert_eq!(forwarded(reaction.step), vec![94, 99, 100]);
    let reaction = run(&mut data, &ana(), Command::Mes);
    assert_eq!(forwarded(reaction.step), vec![71, 94, 99, 100]);
    assert_eq!(data.music.len(), 4);
}

#[test]
fn where_there_are_no_songs_the_user_hears_so() {
    let mut data = Data::default();
    for (command, nothing) in [
        (Command::Dia, "No hay ninguna canción subida hoy."),
        (Command::Semana, "No hay ninguna canción subida esta semana."),
        (Command::Mes, "No hay ninguna canción subida este mes."),
    ] {
        match run(&mut data, &ana(), command).step {
            Step::Say { to, text, html } => {
                assert_eq!(to, Target::User(1));
                assert_eq!(text, nothing);
                assert!(!html);
            }
            other => panic!("{:?}", other),
        }
    }
    assert!(matches!(forward_songs(1, vec![4], "x"), Step::Forward { .. }));
}

#[test]
fn songs_of_today_by_the_clock() {
    let mut data = Data::default();
    data.music.push(Upload::at(1, moment(0)));
    data.music.push(Upload::new(2));
    let reaction = handle_command(&mut data, &ana(), Command::Semana);
    assert!(!reaction.save);
    assert_eq!(forwarded(reaction.step), vec![2]);
    assert_eq!(data.music.len(), 1);
}

#[test]
fn the_bot_answers() {
    let reaction = handle_command(&mut Data::default(), &call(None), Command::Vivo);
    assert!(!reaction.save);
    assert_eq!(said(reaction.step), "Acá estoy.");
}

#[test]
fn names_are_looked_up() {
    let mut data = Data::default();
    match run(&mut data, &call(None), Command::Sinopsis(text("Heat"))).step {
        Step::SearchMovie { name } => assert_eq!(name, "Heat"),
        other => panic!("{:?}", other),
    }
    match run(&mut data, &call(None), Command::LastUsuario(text("lux"))).step {
        Step::LookUpListener { name } => assert_eq!(name, "lux"),
        other => panic!("{:?}", other),
    }
    for (command, expected) in [
        (Command::CancionSemanal(text("lux")), Chart::Tracks),
        (Command::ArtistaSemanal(text("lux")), Chart::Artists),
        (Command::AlbumSemanal(text("lux")), Chart::Albums),
    ] {
        match run(&mut data, &call(None), command).step {
            Step::ListWeeks { chart, name } => {
                assert_eq!(chart, expected);
                assert_eq!(name, "lux");
            }
            other => panic!("{:?}", other),
        }
    }
}

#[test]
fn listeners_need_a_name() {
    let mut data = Data::default();
    for (command, word) in [
        (Command::LastUsuario(text("")), "lastusuario"),
        (Command::CancionSemanal(text("")), "cancionsemanal"),
        (Command::ArtistaSemanal(text("")), "artistasemanal"),
        (Command::AlbumSemanal(text("")), "albumsemanal"),
    ] {
        assert_eq!(
            said(run(&mut data, &ana(), command).step),
            format!(
                "Tenés que dar el nombre del usuario. Ejemplo: /{}@clemen_dc_bot luxreduxdelux",
                word
            )
        );
    }
}

#[test]
fn the_first_film_is_told_of() {
    let movie = |id: u64, title: &str, date: Option<Date>| Movie {
        id,
        title: text(title),
        overview: text("Un policía."),
        release_date: date,
    };
    let found = vec![movie(949, "Heat", Date::new(1995, 12, 15)), movie(1, "Other", None)];
    assert_eq!(
        said(movies_found(CHAT, Some(found))),
        "Heat • (1995-12-15)\n\nUn policía.\n\nhttps://www.themoviedb.org/movie/949"
    );
    assert_eq!(
        said(movies_found(CHAT, Some(vec![movie(0, "", None)]))),
        " • (1970-01-01)\n\nUn policía.\n\nhttps://www.themoviedb.org/movie/0"
    );
    assert_eq!(
        said(movies_found(CHAT, Some(Vec::new()))),
        "No encontré ningún resultado para esa película."
    );
    assert!(matches!(movies_found(CHAT, None), Step::Done));
}

#[test]
fn listeners_are_told_of() {
    let listener =
        Listener { url: text("https://last.fm/user/lux"), name: text("lux"), play_count: 12_345 };
    assert_eq!(
        said_html(listener_found(CHAT, Some(listener))),
        r#"<a href="https://last.fm/user/lux">lux</a> - 12345 scrobbles"#
    );
    assert_eq!(said(listener_found(CHAT, None)), "No hay ningún usuario con ese nombre.");
}

#[test]
fn the_last_week_is_shown() {
    let weeks = vec![Week { from: 1, to: 2 }, Week { from: 3, to: 4 }];
    match weeks_found(CHAT, Chart::Albums, text("lux"), Some(weeks)) {
        Step::FetchChart { chart, name, week } => {
            assert_eq!(chart, Chart::Albums);
            assert_eq!(name, "lux");
            assert_eq!(week, Week { from: 3, to: 4 });
        }
        other => panic!("{:?}", other),
    }
    assert!(matches!(weeks_found(CHAT, Chart::Tracks, text("lux"), Some(Vec::new())), Step::Done));
    assert_eq!(
        said(weeks_found(CHAT, Chart::Tracks, text("lux"), None)),
        "No hay ningún usuario con ese nombre."
    );
}

#[test]
fn charts_are_shown_down_to_the_tenth_rank() {
    let entry = |rank: u32| Entry {
        rank,
        url: format!("u{}", rank),
        name: format!("n{}", rank),
        playcount: 100 - rank,
    };
    let chart = vec![entry(1), entry(10), entry(11), entry(2)];
    assert_eq!(
        said_html(chart_found(CHAT, Some(chart))),
        "1. <a href=\"u1\">n1</a> - 99 reproducciones\n10. <a href=\"u10\">n10</a> - 90 reproducciones\n"
    );
    assert_eq!(said_html(chart_found(CHAT, Some(vec![entry(11)]))), "");
    assert_eq!(said_html(chart_found(CHAT, Some(Vec::new()))), "");
    assert!(matches!(chart_found(CHAT, None), Step::Done));
}

#[test]
fn other_peoples_proposals_are_safe() {
    let mut data = Data::default();
    run(&mut data, &ana(), Command::Proponer(text("Heat")));
    for command in [
        Command::Proponer(text("Up")),
        Command::Desproponer(text("Heat")),
        Command::Votar,
        Command::Cola,
        Command::Mes,
    ] {
        run(&mut data, &beto(), command);
        assert!(data.queue.iter().any(|p| p.name == "Heat" && p.user == "Ana Paz"));
    }
}
