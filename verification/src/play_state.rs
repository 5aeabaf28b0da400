use crate::playlist_manager::PlaylistManager;
use crate::random::random_usize;
use crate::song::playlist::Playlist;
use crate::song::SongID;
use crate::text::{decimal, decimal_string};
use vstd::prelude::*;
use vstd::string::StringExecFns;

verus! {

/// What plays, what plays next, and what has played.
pub struct PlayState {
    pub playing: bool,
    pub mode: PlayMode,
    pub history: Vec<PlayPosition>,
    pub current_song: Option<PlayPosition>,
    pub next_song: Option<PlayPosition>,
}

/// Where a song that plays was taken from.
#[derive(Clone, Copy, Debug, PartialEq, Eq, Structural)]
pub enum PlayPosition {
    /// A song of the file browser.
    File(SongID),
    /// A song of a playlist: the song, the index of the playlist, the index of the song
    /// in the playlist, and whether the song was deleted from the playlist since.
    Playlist(SongID, usize, usize, bool),
}

/// The order in which the songs of a playlist follow each other.
#[derive(Clone, Copy, Debug, PartialEq, Eq, Structural)]
pub enum PlayMode {
    Normal,
    Shuffle,
}

impl PlayMode {
    /// The other mode.
    pub open spec fn toggled(self) -> PlayMode {
        match self {
            PlayMode::Normal => PlayMode::Shuffle,
            PlayMode::Shuffle => PlayMode::Normal,
        }
    }
}

impl PlayPosition {
    /// The position once the song at `arg_song_index` left the playlist
    /// `arg_playlist_id`: a position on that song is marked as deleted, and a position
    /// behind it moves up by one. Every other position stays.
    pub open spec fn spec_apply_playlist_delete(
        self,
        arg_playlist_id: usize,
        arg_song_index: usize,
    ) -> PlayPosition {
        match self {
            PlayPosition::Playlist(song_id, playlist_id, song_index, deleted) => if playlist_id
                == arg_playlist_id {
                if song_index == arg_song_index {
                    PlayPosition::Playlist(song_id, playlist_id, song_index, true)
                } else if song_index > arg_song_index {
                    PlayPosition::Playlist(song_id, playlist_id, (song_index - 1) as usize, deleted)
                } else {
                    self
                }
            } else {
                self
            },
            PlayPosition::File(_) => self,
        }
    }

    /// Adjusts the position to a song's leaving a playlist.
    pub fn apply_playlist_delete(&mut self, arg_playlist_id: usize, arg_song_index: usize)
        ensures
            *final(self) == old(self).spec_apply_playlist_delete(arg_playlist_id, arg_song_index),
    {
        match *self {
            PlayPosition::Playlist(song_id, playlist_id, song_index, deleted) => {
                if playlist_id == arg_playlist_id {
                    if song_index == arg_song_index {
                        *self = PlayPosition::Playlist(song_id, playlist_id, song_index, true);
                    } else if song_index > arg_song_index {
                        *self = PlayPosition::Playlist(
                            song_id,
                            playlist_id,
                            song_index - 1,
                            deleted,
                        );
                    }
                }
            },
            PlayPosition::File(_) => {},
        }
    }

    pub open spec fn spec_get_id(self) -> SongID {
        match self {
            PlayPosition::File(song_id) => song_id,
            PlayPosition::Playlist(song_id, _, _, _) => song_id,
        }
    }

    /// The song of the position.
    pub fn get_id(&self) -> (song_id: SongID)
        ensures
            song_id == self.spec_get_id(),
    {
        match self {
            PlayPosition::File(song_id) => *song_id,
            PlayPosition::Playlist(song_id, _, _, _) => *song_id,
        }
    }
}

/// A position that pointed at the deleted song is marked as deleted afterwards, and a
/// position behind it points one song further up. The only positions that point at the
/// place of the deleted song afterwards without being marked are those that pointed at
/// the song right behind it.
pub proof fn lemma_delete_invariant(position: PlayPosition, playlist_id: usize, song_index: usize)
    ensures
        ({
            let after = position.spec_apply_playlist_delete(playlist_id, song_index);
            &&& position matches PlayPosition::Playlist(song, p, s, deleted) ==> (p == playlist_id
                && s == song_index ==> after == PlayPosition::Playlist(song, p, s, true))
            &&& position matches PlayPosition::Playlist(song, p, s, deleted) ==> (p == playlist_id
                && s > song_index ==> after == PlayPosition::Playlist(
                song,
                p,
                (s - 1) as usize,
                deleted,
            ))
            &&& after matches PlayPosition::Playlist(song, p, s, deleted) ==> (p == playlist_id && s
                == song_index && !deleted ==> position == PlayPosition::Playlist(
                song,
                p,
                (song_index + 1) as usize,
                false,
            ))
        }),
{
}

/// The song at a place of one of the playlists.
pub open spec fn spec_song_at(playlists: Seq<Playlist>, playlist_index: int, song_index: int) -> Option<
    SongID,
> {
    if 0 <= playlist_index < playlists.len() && 0 <= song_index
        < playlists[playlist_index].songs@.len() {
        Some(playlists[playlist_index].songs@[song_index])
    } else {
        None
    }
}

/// What is said of a place of a playlist at which no song was found.
pub open spec fn spec_lookup_failure(playlist_index: int, song_index: int) -> Seq<char> {
    "get song failed with playlist_index="@ + decimal(playlist_index as nat) + " song_index="@
        + decimal(song_index as nat)
}

/// The index of the song that follows the one at `song_index` of a playlist: the next
/// one in normal mode, the one that the random number picks in shuffle mode.
pub open spec fn spec_next_index(
    mode: PlayMode,
    playlists: Seq<Playlist>,
    playlist_index: usize,
    song_index: usize,
    random: usize,
) -> int {
    match mode {
        PlayMode::Normal => song_index + 1,
        PlayMode::Shuffle => random as int % playlists[playlist_index as int].songs@.len() as int,
    }
}

/// A song can be drawn from the playlist of the position: the playlist is there and
/// has songs.
pub open spec fn can_draw(playlists: Seq<Playlist>, position: PlayPosition) -> bool {
    position matches PlayPosition::Playlist(_, playlist_index, _, _) ==> playlist_index
        < playlists.len() && playlists[playlist_index as int].songs@.len() > 0
}

/// Tells whether a song can be drawn from the playlist of the position.
pub fn check_can_draw(playlist_manager: &PlaylistManager, position: &PlayPosition) -> (possible: bool)
    ensures
        possible == can_draw(playlist_manager.playlists@, *position),
{
    match position {
        PlayPosition::Playlist(_, playlist_index, _, _) => *playlist_index
            < playlist_manager.playlists.len()
            && playlist_manager.playlists[*playlist_index].songs.len() > 0,
        PlayPosition::File(_) => true,
    }
}

/// The song that follows the one at a position, with its index and the index of its
/// playlist. Nothing follows a song of the file browser, and nothing the last song
/// of a playlist in normal mode.
pub open spec fn spec_generate_next_song(
    mode: PlayMode,
    position: PlayPosition,
    playlists: Seq<Playlist>,
    random: usize,
) -> Result<(SongID, usize, usize), Seq<char>> {
    match position {
        PlayPosition::Playlist(_, playlist_index, song_index, _) => {
            let next_index = spec_next_index(mode, playlists, playlist_index, song_index, random);
            match spec_song_at(playlists, playlist_index as int, next_index) {
                Some(song_id) => Ok((song_id, next_index as usize, playlist_index)),
                None => Err(spec_lookup_failure(playlist_index as int, next_index)),
            }
        },
        PlayPosition::File(_) => Err("file"@),
    }
}

/// What is said of a place of a playlist at which no song was found.
fn lookup_failure(playlist_index: usize, song_index: u128) -> (message: String)
    ensures
        message@ == spec_lookup_failure(playlist_index as int, song_index as int),
{
    let mut message = "get song failed with playlist_index=".to_owned();
    message.append(decimal_string(playlist_index as u128).as_str());
    message.append(" song_index=");
    message.append(decimal_string(song_index).as_str());
    assert(message@ =~= spec_lookup_failure(playlist_index as int, song_index as int));
    message
}

/// A result agrees with what is expected of it: the same value, or a message with the
/// same text.
pub open spec fn agrees<T>(result: Result<T, String>, expected: Result<T, Seq<char>>) -> bool {
    match result {
        Ok(value) => expected == Ok::<T, Seq<char>>(value),
        Err(message) => expected == Err::<T, Seq<char>>(message@),
    }
}

impl PlayState {
    /// A state in which nothing plays and nothing has played.
    pub fn new(mode: PlayMode) -> (state: PlayState)
        ensures
            !state.playing,
            state.mode == mode,
            state.history@ == Seq::<PlayPosition>::empty(),
            state.current_song is None,
            state.next_song is None,
            state.wf(),
    {
        PlayState { playing: false, mode, history: Vec::new(), current_song: None, next_song: None }
    }

    /// The state in which something plays.
    pub open spec fn now_playing(&self) -> PlayState {
        PlayState { playing: true, ..*self }
    }

    /// What plays is the last that began to play.
    pub open spec fn wf(&self) -> bool {
        self.current_song matches Some(current) ==> self.history@.len() > 0 && self.history@.last()
            == current
    }

    /// A song of the playlist plays.
    pub open spec fn spec_is_playlist_played(&self, playlist_index: usize) -> bool {
        self.current_song matches Some(PlayPosition::Playlist(_, playlist, _, _)) && playlist
            == playlist_index
    }

    /// The song at a place of a playlist plays.
    pub open spec fn spec_is_song_played(&self, playlist_index: usize, song_index: usize) -> bool {
        self.current_song matches Some(PlayPosition::Playlist(_, playlist, song, _)) && playlist
            == playlist_index && song == song_index
    }

    /// Tells whether a song of the playlist plays.
    pub fn is_playlist_played(&self, playlist_index: usize) -> (played: bool)
        ensures
            played == self.spec_is_playlist_played(playlist_index),
    {
        if let Some(PlayPosition::Playlist(_, playlist, _, _)) = self.get_current_play_position() {
            playlist_index == playlist
        } else {
            false
        }
    }

    /// Tells whether the song at a place of a playlist plays.
    pub fn is_song_played(&self, playlist_index: usize, song_index: usize) -> (played: bool)
        ensures
            played == self.spec_is_song_played(playlist_index, song_index),
    {
        if let Some(PlayPosition::Playlist(_, playlist, song, _)) = self.get_current_play_position() {
            playlist_index == playlist && song_index == song
        } else {
            false
        }
    }

    /// The position that plays.
    pub fn get_current_play_position(&self) -> (position: Option<PlayPosition>)
        ensures
            position == self.current_song,
    {
        self.current_song
    }

    /// The position that plays next.
    pub fn peek_next_song(&mut self) -> (position: Option<PlayPosition>)
        ensures
            position == old(self).next_song,
            *final(self) == *old(self),
    {
        self.next_song
    }

    /// The song that follows the one at a position, where shuffling goes by the given
    /// random number.
    pub fn next_song_for(
        mode: &PlayMode,
        play_position: &PlayPosition,
        playlist_manager: &PlaylistManager,
        random: usize,
    ) -> (next: Result<(SongID, usize, usize), String>)
        requires
            *mode == PlayMode::Shuffle ==> can_draw(playlist_manager.playlists@, *play_position),
        ensures
            agrees(
                next,
                spec_generate_next_song(*mode, *play_position, playlist_manager.playlists@, random),
            ),
    {
        match play_position {
            PlayPosition::Playlist(_, playlist_index, song_index, _) => {
                let next_song_index: u128 = match mode {
                    PlayMode::Normal => *song_index as u128 + 1,
                    PlayMode::Shuffle => {
                        let played_playlist = &playlist_manager.playlists[*playlist_index];
                        (random % played_playlist.songs.len()) as u128
                    },
                };
                proof {
                    if *playlist_index < playlist_manager.playlists@.len() {
                        vstd::std_specs::vec::axiom_spec_len(
                            &playlist_manager.playlists@[*playlist_index as int].songs,
                        );
                    }
                }
                if next_song_index <= usize::MAX as u128 {
                    if let Some(song_id) = playlist_manager.get_song(
                        *playlist_index,
                        next_song_index as usize,
                    ) {
                        return Ok((song_id, next_song_index as usize, *playlist_index));
                    }
                }
                Err(lookup_failure(*playlist_index, next_song_index))
            },
            PlayPosition::File(_) => Err("file".to_owned()),
        }
    }

    /// The song that follows the one at a position. In shuffle mode a random number
    /// picks it.
    fn generate_next_song(
        mode: &PlayMode,
        play_position: &PlayPosition,
        playlist_manager: &PlaylistManager,
    ) -> (next: Result<(SongID, usize, usize), String>)
        requires
            *mode == PlayMode::Shuffle ==> can_draw(playlist_manager.playlists@, *play_position),
        ensures
            exists|random: usize| #[trigger]
                agrees(
                    next,
                    spec_generate_next_song(
                        *mode,
                        *play_position,
                        playlist_manager.playlists@,
                        random,
                    ),
                ),
    {
        let random = match mode {
            PlayMode::Normal => 0,
            PlayMode::Shuffle => random_usize(),
        };
        Self::next_song_for(mode, play_position, playlist_manager, random)
    }

    /// What defining the next song makes of a state in the given mode, where shuffling
    /// goes by the given random number: the song that follows the current one becomes
    /// the next one. Where none follows, or nothing plays, the state stays and a
    /// message says why.
    pub open spec fn defines_next(
        &self,
        mode: PlayMode,
        playlists: Seq<Playlist>,
        random: usize,
        after: PlayState,
        result: Result<PlayPosition, String>,
    ) -> bool {
        &&& after.playing == self.playing
        &&& after.mode == mode
        &&& after.history == self.history
        &&& after.current_song == self.current_song
        &&& match self.current_song {
            None => after.next_song == self.next_song && agrees(result, Err("no current song"@)),
            Some(current) => match spec_generate_next_song(mode, current, playlists, random) {
                Ok((song_id, song_index, playlist_index)) => {
                    let next = PlayPosition::Playlist(song_id, playlist_index, song_index, false);
                    after.next_song == Some(next) && agrees(result, Ok(next))
                },
                Err(message) => after.next_song == self.next_song && agrees(result, Err(message)),
            },
        }
    }

    /// Shuffling is possible: there is a playlist with songs to draw the next song from.
    pub open spec fn can_define_next(&self, mode: PlayMode, playlists: Seq<Playlist>) -> bool {
        mode == PlayMode::Shuffle ==> (self.current_song matches Some(current) ==> can_draw(
            playlists,
            current,
        ))
    }

    /// Tells whether the next song can be found in the given mode.
    pub fn check_can_define_next(&self, mode: PlayMode, playlist_manager: &PlaylistManager) -> (possible:
        bool)
        ensures
            possible == self.can_define_next(mode, playlist_manager.playlists@),
    {
        match mode {
            PlayMode::Normal => true,
            PlayMode::Shuffle => match &self.current_song {
                Some(current) => check_can_draw(playlist_manager, current),
                None => true,
            },
        }
    }

    /// Finds the song that follows the current one, and keeps it as the next one.
    pub fn define_next_song(&mut self, playlist_manager: &PlaylistManager) -> (next: Result<
        PlayPosition,
        String,
    >)
        requires
            old(self).can_define_next(old(self).mode, playlist_manager.playlists@),
        ensures
            exists|random: usize| #[trigger]
                old(self).defines_next(
                    old(self).mode,
                    playlist_manager.playlists@,
                    random,
                    *final(self),
                    next,
                ),
    {
        let current = match self.current_song {
            Some(current) => current,
            None => {
                let next = Err("no current song".to_owned());
                assert(self.defines_next(self.mode, playlist_manager.playlists@, 0, *self, next));
                return next;
            },
        };
        let generated = PlayState::generate_next_song(&self.mode, &current, playlist_manager);
        let ghost random = choose|random: usize| #[trigger]
            agrees(
                generated,
                spec_generate_next_song(self.mode, current, playlist_manager.playlists@, random),
            );
        match generated {
            Ok((song_id, song_index, playlist_index)) => {
                let next_play_position = PlayPosition::Playlist(
                    song_id,
                    playlist_index,
                    song_index,
                    false,
                );
                self.set_next_song(next_play_position);
                let next = Ok(next_play_position);
                assert(old(self).defines_next(
                    old(self).mode,
                    playlist_manager.playlists@,
                    random,
                    *self,
                    next,
                ));
                next
            },
            Err(msg) => {
                let next = Err(msg);
                assert(old(self).defines_next(
                    old(self).mode,
                    playlist_manager.playlists@,
                    random,
                    *self,
                    next,
                ));
                next
            },
        }
    }

    /// Keeps a position as the next one.
    pub fn set_next_song(&mut self, play_position: PlayPosition)
        ensures
            *final(self) == (PlayState { next_song: Some(play_position), ..*old(self) }),
    {
        self.next_song = Some(play_position);
    }

    /// The state in which `position` has begun to play, before the next song is found.
    pub open spec fn started(&self, position: PlayPosition) -> PlayState {
        PlayState {
            playing: self.playing,
            mode: self.mode,
            history: self.history,
            current_song: Some(position),
            next_song: self.next_song,
        }
    }

    /// What playing a position makes of a state: the position is the last of the
    /// history and the current one, and the song that follows it is the next one.
    pub open spec fn plays(
        &self,
        position: PlayPosition,
        playlists: Seq<Playlist>,
        random: usize,
        after: PlayState,
        result: Result<(), String>,
    ) -> bool {
        &&& after.playing == self.playing
        &&& after.mode == self.mode
        &&& after.history@ == self.history@.push(position)
        &&& after.current_song == Some(position)
        &&& match spec_generate_next_song(self.mode, position, playlists, random) {
            Ok((song_id, song_index, playlist_index)) => after.next_song == Some(
                PlayPosition::Playlist(song_id, playlist_index, song_index, false),
            ) && result is Ok,
            Err(message) => after.next_song == self.next_song && agrees(result, Err(message)),
        }
    }

    /// Lets a position play: it joins the history and becomes the current one, and the
    /// song that follows it becomes the next one.
    pub fn play_song(&mut self, play_position: PlayPosition, playlist_manager: &PlaylistManager) -> (result:
        Result<(), String>)
        requires
            old(self).mode == PlayMode::Shuffle ==> can_draw(
                playlist_manager.playlists@,
                play_position,
            ),
        ensures
            exists|random: usize| #[trigger]
                old(self).plays(
                    play_position,
                    playlist_manager.playlists@,
                    random,
                    *final(self),
                    result,
                ),
            final(self).wf(),
    {
        self.history.push(play_position);
        self.current_song = Some(play_position);
        let ghost before = *self;
        let defined = self.define_next_song(playlist_manager);
        let ghost random = choose|random: usize| #[trigger]
            before.defines_next(before.mode, playlist_manager.playlists@, random, *self, defined);
        let result = match defined {
            Ok(_) => Ok(()),
            Err(message) => Err(message),
        };
        assert(old(self).plays(play_position, playlist_manager.playlists@, random, *self, result));
        result
    }

    /// Lets the next song play. Without a next song nothing changes.
    pub fn play_next_song(&mut self, playlist_manager: &PlaylistManager) -> (result: Result<
        (),
        String,
    >)
        requires
            old(self).mode == PlayMode::Shuffle ==> (old(self).next_song matches Some(next)
                ==> can_draw(playlist_manager.playlists@, next)),
        ensures
            match old(self).next_song {
                Some(next) => exists|random: usize| #[trigger]
                    old(self).plays(next, playlist_manager.playlists@, random, *final(self), result),
                None => *final(self) == *old(self) && agrees(
                    result,
                    Err("Cannot play next song: no next song"@),
                ),
            },
            old(self).wf() ==> final(self).wf(),
    {
        if let Some(next_song) = self.next_song {
            self.play_song(next_song, playlist_manager)
        } else {
            Err("Cannot play next song: no next song".to_owned())
        }
    }

    /// Changes from normal mode to shuffle mode or back, and finds the next song anew.
    pub fn toggle_mode(&mut self, playlist_manager: &PlaylistManager) -> (result: Result<(), String>)
        requires
            old(self).can_define_next(old(self).mode.toggled(), playlist_manager.playlists@),
        ensures
            exists|random: usize, defined: Result<PlayPosition, String>| #[trigger]
                old(self).defines_next(
                    old(self).mode.toggled(),
                    playlist_manager.playlists@,
                    random,
                    *final(self),
                    defined,
                ) && (result is Ok <==> defined is Ok) && (result matches Err(message)
                    ==> defined matches Err(reason) && message == reason),
            old(self).wf() ==> final(self).wf(),
    {
        self.mode =
        match self.mode {
            PlayMode::Normal => PlayMode::Shuffle,
            PlayMode::Shuffle => PlayMode::Normal,
        };
        let ghost before = *self;
        let defined = self.define_next_song(playlist_manager);
        let ghost random = choose|random: usize| #[trigger]
            before.defines_next(before.mode, playlist_manager.playlists@, random, *self, defined);
        assert(old(self).defines_next(
            old(self).mode.toggled(),
            playlist_manager.playlists@,
            random,
            *self,
            defined,
        ));
        match defined {
            Ok(_) => Ok(()),
            Err(message) => Err(message),
        }
    }

    /// The positions of a history once a song left a playlist.
    pub open spec fn spec_history_after_delete(
        history: Seq<PlayPosition>,
        arg_playlist_id: usize,
        arg_song_index: usize,
    ) -> Seq<PlayPosition> {
        history.map_values(
            |position: PlayPosition|
                position.spec_apply_playlist_delete(arg_playlist_id, arg_song_index),
        )
    }

    /// Adjusts the current position, the next one and the whole history to a song's
    /// leaving a playlist.
    pub fn apply_playlist_delete(&mut self, arg_playlist_id: usize, arg_song_index: usize)
        ensures
            final(self).playing == old(self).playing,
            final(self).mode == old(self).mode,
            final(self).current_song == match old(self).current_song {
                Some(current) => Some(
                    current.spec_apply_playlist_delete(arg_playlist_id, arg_song_index),
                ),
                None => None,
            },
            final(self).next_song == match old(self).next_song {
                Some(next) => Some(next.spec_apply_playlist_delete(arg_playlist_id, arg_song_index)),
                None => None,
            },
            final(self).history@ == Self::spec_history_after_delete(
                old(self).history@,
                arg_playlist_id,
                arg_song_index,
            ),
            old(self).wf() ==> final(self).wf(),
    {
        if let Some(mut current_song) = self.current_song {
            current_song.apply_playlist_delete(arg_playlist_id, arg_song_index);
            self.current_song = Some(current_song);
        }
        if let Some(mut next_song) = self.next_song {
            next_song.apply_playlist_delete(arg_playlist_id, arg_song_index);
            self.next_song = Some(next_song);
        }
        let ghost current_after = self.current_song;
        let ghost next_after = self.next_song;
        let mut index: usize = 0;
        while index < self.history.len()
            invariant
                index <= self.history@.len(),
                self.history@.len() == old(self).history@.len(),
                self.playing == old(self).playing,
                self.mode == old(self).mode,
                self.current_song == current_after,
                self.next_song == next_after,
                forall|i: int|
                    0 <= i < index ==> self.history@[i] == old(self).history@[i].spec_apply_playlist_delete(arg_playlist_id, arg_song_index),
                forall|i: int| index <= i < self.history@.len() ==> self.history@[i] == old(self).history@[i],
            decreases self.history@.len() - index,
        {
            let mut position = self.history[index];
            position.apply_playlist_delete(arg_playlist_id, arg_song_index);
            self.history.set(index, position);
            index += 1;
        }
        assert(self.history@ =~= Self::spec_history_after_delete(
            old(self).history@,
            arg_playlist_id,
            arg_song_index,
        ));
    }
}

/// After a song left a playlist, every position that the state keeps and that pointed
/// at the song is marked as deleted, and every position behind the song in that
/// playlist points one song further up. Where no position pointed at the song right
/// behind the deleted one, no unmarked position points at the deleted song's place.
pub proof fn lemma_delete_keeps_history_valid(
    history: Seq<PlayPosition>,
    playlist_id: usize,
    song_index: usize,
)
    ensures
        ({
            let after = PlayState::spec_history_after_delete(history, playlist_id, song_index);
            &&& after.len() == history.len()
            &&& forall|i: int|
                0 <= i < history.len() ==> (#[trigger] history[i] matches PlayPosition::Playlist(
                    song,
                    p,
                    s,
                    deleted,
                ) ==> (p == playlist_id && s == song_index ==> after[i] == PlayPosition::Playlist(
                    song,
                    p,
                    s,
                    true,
                )) && (p == playlist_id && s > song_index ==> after[i] == PlayPosition::Playlist(
                    song,
                    p,
                    (s - 1) as usize,
                    deleted,
                )))
            &&& (forall|i: int|
                0 <= i < history.len() ==> !(#[trigger] history[i] matches PlayPosition::Playlist(
                    _,
                    p,
                    s,
                    deleted,
                ) && p == playlist_id && s == song_index + 1 && !deleted)) ==> (forall|i: int|
                0 <= i < after.len() ==> !(#[trigger] after[i] matches PlayPosition::Playlist(
                    _,
                    p,
                    s,
                    deleted,
                ) && p == playlist_id && s == song_index && !deleted))
        }),
{
    let after = PlayState::spec_history_after_delete(history, playlist_id, song_index);
    assert forall|i: int| 0 <= i < history.len() implies after[i]
        == history[i].spec_apply_playlist_delete(playlist_id, song_index) by {}
    if forall|i: int|
        0 <= i < history.len() ==> !(#[trigger] history[i] matches PlayPosition::Playlist(
            _,
            p,
            s,
            deleted,
        ) && p == playlist_id && s == song_index + 1 && !deleted) {
        assert forall|i: int| 0 <= i < after.len() implies !(#[trigger] after[i]
            matches PlayPosition::Playlist(_, p, s, deleted) && p == playlist_id && s == song_index
            && !deleted) by {
            lemma_delete_invariant(history[i], playlist_id, song_index);
        }
    }
}

} // verus!
