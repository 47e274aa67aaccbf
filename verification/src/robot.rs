//! The command protocol between the robot-control web page and the
//! robot: a move request becomes `direction:<dir>` for one of six known
//! directions, a display request becomes `text:'<text>'`.
use vstd::prelude::*;
use vstd::string::StringExecFns;

verus! {

/// Why a request was refused.
#[derive(Clone, Copy, Debug, PartialEq, Eq, Structural)]
pub enum CommandError {
    /// The move direction is not one the robot knows.
    InvalidMove,
}

/// The directions the robot accepts.
pub open spec fn is_move_direction(dir: Seq<char>) -> bool {
    ||| dir == "forward"@
    ||| dir == "left"@
    ||| dir == "right"@
    ||| dir == "backward"@
    ||| dir == "stop"@
    ||| dir == "turn"@
}

fn text_eq(a: &str, b: &str) -> (same: bool)
    ensures
        same == (a@ == b@),
{
    String::from_str(a) == String::from_str(b)
}

/// Whether `dir` is a direction the robot accepts.
pub fn is_valid_direction(dir: &str) -> (valid: bool)
    ensures
        valid == is_move_direction(dir@),
        valid == (dir@ == "forward"@ || dir@ == "left"@ || dir@ == "right"@ || dir@ == "backward"@
            || dir@ == "stop"@ || dir@ == "turn"@),
{
    text_eq(dir, "forward") || text_eq(dir, "left") || text_eq(dir, "right") || text_eq(
        dir,
        "backward",
    ) || text_eq(dir, "stop") || text_eq(dir, "turn")
}

/// The message sent to the robot for a move request, or the refusal of
/// an unknown direction.
pub fn move_message(dir: &str) -> (msg: Result<String, CommandError>)
    ensures
        is_move_direction(dir@) ==> (msg matches Ok(m) && m@ == "direction:"@ + dir@),
        !is_move_direction(dir@) ==> msg == Err::<String, CommandError>(
            CommandError::InvalidMove,
        ),
        msg is Ok <==> (dir@ == "forward"@ || dir@ == "left"@ || dir@ == "right"@ || dir@ == "backward"@
            || dir@ == "stop"@ || dir@ == "turn"@),
        msg matches Ok(m) ==> m@ == "direction:"@ + dir@,
{
    if is_valid_direction(dir) {
        let mut m = String::from_str("direction:");
        m.append(dir);
        Ok(m)
    } else {
        Err(CommandError::InvalidMove)
    }
}

/// The reply to an accepted move request.
pub fn move_reply(msg: &str) -> (reply: String)
    ensures
        reply@ == "Command sent: "@ + msg@,
{
    let mut reply = String::from_str("Command sent: ");
    reply.append(msg);
    reply
}

/// The reply to a refused move request.
pub fn refusal_reply(err: CommandError) -> (reply: String)
    ensures
        reply@ == "Invalid move command"@,
{
    match err {
        CommandError::InvalidMove => String::from_str("Invalid move command"),
    }
}

/// The message sent to the robot for a display request: the text in
/// single quotes after `text:`.
pub fn display_message(text: &str) -> (msg: String)
    ensures
        msg@ == "text:'"@ + text@ + "'"@,
{
    let mut msg = String::from_str("text:'");
    msg.append(text);
    msg.append("'");
    msg
}

/// The robot accepts exactly six directions: "forward", "left",
/// "right", "backward", "stop" and "turn"; any other text, such as
/// "back" or "Forward", is refused.
pub proof fn lemma_six_directions(dir: Seq<char>)
    ensures
        is_move_direction(dir) <==> (dir == "forward"@ || dir == "left"@ || dir == "right"@ || dir
            == "backward"@ || dir == "stop"@ || dir == "turn"@),
{
}

} // verus!
