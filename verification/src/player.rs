//! What a client may ask of the player, and the commands that it takes.

use vstd::prelude::*;
use crate::executor::ResilientExecutor;

verus! {

/// A command of the control protocol that changes what the player does.
#[derive(Debug, Copy, Clone, Eq, PartialEq, Structural)]
pub enum Command {
    Play,
    Pause,
    Stop,
    Prev,
    Next,
    SetVol(u32),
    Repeat(bool),
    Random(bool),
    Consume(bool),
    PlayId(u32),
}

/// The buttons of a player.
#[derive(Debug, Copy, Clone, Eq, PartialEq, Structural)]
pub enum Action {
    Play,
    Pause,
    Stop,
    Prev,
    Next,
}

impl Action {
    /// The command that carries the action out.
    pub open spec fn command_of(self) -> Command {
        match self {
            Action::Play => Command::Play,
            Action::Pause => Command::Pause,
            Action::Stop => Command::Stop,
            Action::Prev => Command::Prev,
            Action::Next => Command::Next,
        }
    }

    pub fn command(&self) -> (command: Command)
        ensures
            command == self.command_of(),
    {
        match self {
            Action::Play => Command::Play,
            Action::Pause => Command::Pause,
            Action::Stop => Command::Stop,
            Action::Prev => Command::Prev,
            Action::Next => Command::Next,
        }
    }
}

/// A request to press one button.
#[derive(Debug, Copy, Clone, Eq, PartialEq, Structural)]
pub struct PlayControl {
    pub action: Action,
}

impl PlayControl {
    pub fn command(&self) -> (command: Command)
        ensures
            command == self.action.command_of(),
    {
        self.action.command()
    }
}

/// A request to set the volume.
#[derive(Debug, Copy, Clone, Eq, PartialEq, Structural)]
pub struct VolumeControl {
    pub volume: u32,
}

impl VolumeControl {
    pub fn command(&self) -> (command: Command)
        ensures
            command == Command::SetVol(self.volume),
    {
        Command::SetVol(self.volume)
    }
}

/// A request to jump to the entry of the play queue with the given id.
#[derive(Debug, Copy, Clone, Eq, PartialEq, Structural)]
pub struct PlayQueueGoto {
    pub id: u32,
}

impl PlayQueueGoto {
    pub fn command(&self) -> (command: Command)
        ensures
            command == Command::PlayId(self.id),
    {
        Command::PlayId(self.id)
    }
}

/// A request to play the entry of the play queue with the given id.
#[derive(Debug, Copy, Clone, Eq, PartialEq, Structural)]
pub struct PlayQueuePlay {
    pub id: u32,
}

impl PlayQueuePlay {
    pub fn command(&self) -> (command: Command)
        ensures
            command == Command::PlayId(self.id),
    {
        Command::PlayId(self.id)
    }
}

/// A request to switch options of the player; an option that is not named
/// stays as it is.
#[derive(Debug, Copy, Clone, Eq, PartialEq, Structural)]
pub struct PlayerOptions {
    pub repeat: Option<bool>,
    pub random: Option<bool>,
    pub consume: Option<bool>,
}

/// No command, or the one command that an option asks for.
pub open spec fn option_command(option: Option<bool>, command: spec_fn(bool) -> Command) -> Seq<
    Command,
> {
    match option {
        Some(on) => seq![command(on)],
        None => Seq::empty(),
    }
}

impl PlayerOptions {
    /// The commands that the request takes: one for each option named, for
    /// repeat first, then random, then consume.
    pub open spec fn commands_of(self) -> Seq<Command> {
        option_command(self.repeat, |on: bool| Command::Repeat(on)) + option_command(
            self.random,
            |on: bool| Command::Random(on),
        ) + option_command(self.consume, |on: bool| Command::Consume(on))
    }

    pub fn commands(&self) -> (commands: Vec<Command>)
        ensures
            commands@ == self.commands_of(),
    {
        let mut commands: Vec<Command> = Vec::new();
        if let Some(on) = self.repeat {
            commands.push(Command::Repeat(on));
        }
        if let Some(on) = self.random {
            commands.push(Command::Random(on));
        }
        if let Some(on) = self.consume {
            commands.push(Command::Consume(on));
        }
        proof {
            assert(commands@ =~= self.commands_of());
        }
        commands
    }
}

/// A request to talk to another player daemon.
#[derive(Debug, Clone, Eq, PartialEq)]
pub struct ServerSettings {
    pub host: String,
}

impl ServerSettings {
    /// Makes the host of the settings the target of the executor. The
    /// session is connected to it when it is next connected.
    pub fn apply(&self, executor: &mut ResilientExecutor)
        ensures
            final(executor).target() == self.host@,
            final(executor).retries() == old(executor).retries(),
    {
        executor.set_address(self.host.clone());
    }
}

/// A request to append what is found at a path to the play queue.
#[derive(Debug, Clone, Eq, PartialEq)]
pub struct PlayQueueAddPath {
    pub path: String,
}

} // verus!
