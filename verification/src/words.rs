//! What the bot says.

use vstd::prelude::*;

verus! {

pub const PROPOSE_HELP: &'static str =
    "Tenés que dar el nombre de la película. Ejemplo: /proponer@clemen_dc_bot Rocky Horror Picture Show";

pub const QUEUE_FULL: &'static str =
    "Telegram tiene un límite de 12 opciones por encuesta...don't hate the player hate the game";

pub const PROPOSED: &'static str = "Lo anotubi";

pub const ALREADY_PROPOSED: &'static str = "Ya está en la cola, me estás gargando";

pub const WITHDRAW_HELP: &'static str =
    "Tenés que dar el nombre de la película. Ejemplo: /desproponer@clemen_dc_bot Rocky Horror Picture Show";

pub const WITHDRAWN: &'static str = "Lo desanotubi";

pub const NOT_YOURS: &'static str =
    "Me estás gargando...no propusiste esa película vos. 🍅la de acá";

pub const SYNOPSIS_HELP: &'static str =
    "Tenés que dar el nombre de la película. Ejemplo: /sinopsis@clemen_dc_bot Rocky Horror Picture Show";

pub const NO_MOVIE: &'static str = "No encontré ningún resultado para esa película.";

pub const QUEUE_EMPTY: &'static str = "La cola está vacía.";

pub const POLL_QUESTION: &'static str = "Vota la próxima película!";

pub const NOT_THE_ORGANISER: &'static str = "Únicamente Queso puede utilizar este comando.";

pub const NO_SONGS_TODAY: &'static str = "No hay ninguna canción subida hoy.";

pub const NO_SONGS_THIS_WEEK: &'static str = "No hay ninguna canción subida esta semana.";

pub const NO_SONGS_THIS_MONTH: &'static str = "No hay ninguna canción subida este mes.";

pub const LISTENER_HELP: &'static str =
    "Tenés que dar el nombre del usuario. Ejemplo: /lastusuario@clemen_dc_bot luxreduxdelux";

pub const TRACKS_HELP: &'static str =
    "Tenés que dar el nombre del usuario. Ejemplo: /cancionsemanal@clemen_dc_bot luxreduxdelux";

pub const ARTISTS_HELP: &'static str =
    "Tenés que dar el nombre del usuario. Ejemplo: /artistasemanal@clemen_dc_bot luxreduxdelux";

pub const ALBUMS_HELP: &'static str =
    "Tenés que dar el nombre del usuario. Ejemplo: /albumsemanal@clemen_dc_bot luxreduxdelux";

pub const NO_LISTENER: &'static str = "No hay ningún usuario con ese nombre.";

pub const ALIVE: &'static str = "Acá estoy.";

} // verus!
